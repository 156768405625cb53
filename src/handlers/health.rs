use vstd::prelude::*;

verus! {

/// The liveness answer: the value of the `status` field of the body
/// `{"status": "ok"}`, sent with 200.
pub fn check() -> (r: String)
    ensures
        r@ == "ok"@,
{
    "ok".to_owned()
}

} // verus!
