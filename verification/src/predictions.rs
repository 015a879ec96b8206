use vstd::prelude::*;
use vstd::string::StringExecFns;

verus! {

/// The IEEE-754 bit pattern of the sentinel price `-1.0`. The crate carries
/// prices as their bit patterns; the process edge converts to and from the
/// floating-point wire value.
pub const SENTINEL_PRICE_BITS: u64 = 0xBFF0_0000_0000_0000;

/// The query-string parameters of `GET /prediction`.
pub struct PredictionParams {
    pub pair: String,
}

/// One row of the materialized view, or the sentinel standing for a failed
/// lookup; the wire shape of the response either way.
#[derive(Debug)]
pub struct PredictionOutput {
    pub pair: String,
    pub predicted_price_bits: u64,
    pub ts_ms: i64,
    pub predicted_ts_ms: i64,
}

/// Mathematical image of a `PredictionOutput`.
pub struct PredictionView {
    pub pair: Seq<char>,
    pub predicted_price_bits: u64,
    pub ts_ms: int,
    pub predicted_ts_ms: int,
}

impl View for PredictionOutput {
    type V = PredictionView;

    open spec fn view(&self) -> PredictionView {
        PredictionView {
            pair: self.pair@,
            predicted_price_bits: self.predicted_price_bits,
            ts_ms: self.ts_ms as int,
            predicted_ts_ms: self.predicted_ts_ms as int,
        }
    }
}

/// The statement that refreshes the view before a lookup.
pub open spec fn spec_refresh_statement(view_name: Seq<char>) -> Seq<char> {
    "REFRESH MATERIALIZED VIEW CONCURRENTLY public."@ + view_name
}

/// Builds the refresh statement for the configured view.
pub fn refresh_statement(view_name: &str) -> (r: String)
    ensures
        r@ == spec_refresh_statement(view_name@),
{
    let mut s = "REFRESH MATERIALIZED VIEW CONCURRENTLY public.".to_owned();
    s.append(view_name);
    s
}

/// The text of the lookup statement. It interpolates only the view name,
/// which comes from trusted startup configuration; the pair is left to the
/// positional placeholder.
pub open spec fn spec_select_statement(view_name: Seq<char>) -> Seq<char> {
    "SELECT pair, predicted_price, ts_ms, predicted_ts_ms FROM public."@ + view_name
        + " WHERE pair = $1"@
}

/// A statement together with the one value bound to its placeholder. The
/// value is carried as data, never spliced into the text.
pub struct PreparedQuery {
    pub text: String,
    pub param: String,
}

/// What `prediction_query` builds: the statement text, a function of the
/// view name alone, and the bound parameter, the pair itself.
pub open spec fn spec_prediction_query(view_name: Seq<char>, pair: Seq<char>) -> (Seq<
    char,
>, Seq<char>) {
    (spec_select_statement(view_name), pair)
}

/// Builds the parameterized lookup for `pair` against the configured view.
pub fn prediction_query(view_name: &str, pair: &str) -> (q: PreparedQuery)
    ensures
        (q.text@, q.param@) == spec_prediction_query(view_name@, pair@),
{
    let mut text = "SELECT pair, predicted_price, ts_ms, predicted_ts_ms FROM public.".to_owned();
    text.append(view_name);
    text.append(" WHERE pair = $1");
    PreparedQuery { text, param: pair.to_owned() }
}

/// The sentinel reply for `pair`: the input echoed back, every numeric field
/// exactly `-1`.
pub open spec fn spec_sentinel(pair: Seq<char>) -> PredictionView {
    PredictionView {
        pair: pair,
        predicted_price_bits: SENTINEL_PRICE_BITS,
        ts_ms: -1,
        predicted_ts_ms: -1,
    }
}

/// How a lookup outcome is mapped onto the response: a row is returned as
/// it stands; anything else collapses to the sentinel for the requested
/// pair.
pub open spec fn spec_respond(pair: Seq<char>, query_result: Option<PredictionView>) -> Result<
    PredictionView,
    PredictionView,
> {
    match query_result {
        Some(row) => Ok(row),
        None => Err(spec_sentinel(pair)),
    }
}

/// The whole per-request decision, refresh outcome included. The refresh is
/// best-effort: its outcome is accepted and dropped, and the lookup outcome
/// alone decides the response.
pub open spec fn spec_handle(
    pair: Seq<char>,
    refresh_failed: bool,
    query_result: Option<PredictionView>,
) -> Result<PredictionView, PredictionView> {
    spec_respond(pair, query_result)
}

pub open spec fn view_of_outcome(o: Option<PredictionOutput>) -> Option<PredictionView> {
    match o {
        Some(row) => Some(row@),
        None => None,
    }
}

pub open spec fn view_of_response(r: Result<PredictionOutput, PredictionOutput>) -> Result<
    PredictionView,
    PredictionView,
> {
    match r {
        Ok(out) => Ok(out@),
        Err(out) => Err(out@),
    }
}

/// Builds the sentinel reply for `pair`.
pub fn sentinel_output(pair: &String) -> (r: PredictionOutput)
    ensures
        r@ == spec_sentinel(pair@),
{
    PredictionOutput {
        pair: pair.clone(),
        predicted_price_bits: SENTINEL_PRICE_BITS,
        ts_ms: -1,
        predicted_ts_ms: -1,
    }
}

/// Decides the response of one request. `refresh_failed` reports whether the
/// preceding best-effort refresh failed; `query_result` is the row the
/// lookup produced, or `None` for a missing row, ambiguous rows, or any
/// database error — the caller may not distinguish them here, by design.
pub fn handle_prediction(
    params: &PredictionParams,
    refresh_failed: bool,
    query_result: Option<PredictionOutput>,
) -> (r: Result<PredictionOutput, PredictionOutput>)
    ensures
        view_of_response(r) == spec_handle(
            params.pair@,
            refresh_failed,
            view_of_outcome(query_result),
        ),
{
    match query_result {
        Some(row) => Ok(row),
        None => Err(sentinel_output(&params.pair)),
    }
}

/// A failed refresh never changes the reply: for the same lookup outcome the
/// response is the same whether the refresh succeeded or not, so a request
/// still returns the last successfully refreshed row after a refresh error.
pub proof fn lemma_refresh_failure_does_not_affect_response(
    pair: Seq<char>,
    query_result: Option<PredictionView>,
)
    ensures
        spec_handle(pair, true, query_result) == spec_handle(pair, false, query_result),
{
}

/// Each request's reply is a function of that request's own pair and lookup
/// outcome alone, and it succeeds exactly when its own lookup produced a
/// row: no other concurrent request enters the decision.
pub proof fn lemma_request_decided_by_own_outcome(
    pair: Seq<char>,
    refresh_failed: bool,
    query_result: Option<PredictionView>,
)
    ensures
        spec_handle(pair, refresh_failed, query_result) == spec_respond(pair, query_result),
        (spec_handle(pair, refresh_failed, query_result) is Ok) <==> (query_result is Some),
{
}

/// A failed lookup is answered by the full sentinel and nothing else: the
/// requested pair echoed back and every numeric field exactly `-1`, never a
/// partially filled record.
pub proof fn lemma_failed_lookup_yields_sentinel(
    pair: Seq<char>,
    refresh_failed: bool,
    query_result: Option<PredictionView>,
)
    ensures
        spec_handle(pair, refresh_failed, query_result) matches Err(e) ==> e == spec_sentinel(
            pair,
        ),
{
}

/// The statement text of a lookup depends on the view name alone: two
/// lookups for different pairs carry identical text, the pair travelling
/// only as the bound parameter, so SQL metacharacters inside a pair cannot
/// alter the statement.
pub proof fn lemma_statement_text_independent_of_pair(
    view_name: Seq<char>,
    pair1: Seq<char>,
    pair2: Seq<char>,
)
    ensures
        spec_prediction_query(view_name, pair1).0 == spec_prediction_query(view_name, pair2).0,
        spec_prediction_query(view_name, pair1).1 == pair1,
{
}

} // verus!
