use vstd::prelude::*;

verus! {

/// Body of the `GET /health` response: a fixed literal, independent of the
/// database, so the endpoint answers whether or not the pool is usable.
pub fn health_body() -> (r: &'static str)
    ensures
        r@ == "OK"@,
{
    "OK"
}

} // verus!
