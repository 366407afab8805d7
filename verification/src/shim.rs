use vstd::prelude::*;

verus! {

/// The externally visible fallible entry point forwards the value produced
/// by the bound native function unchanged: it adds no logic of its own. The
/// foreign call itself happens at the crate's unverified boundary, which
/// hands its result in here; whatever that call produced for its input is
/// exactly what the caller receives.
pub fn fallible_func(bound_result: i32) -> (r: i32)
    ensures
        r == bound_result,
{
    bound_result
}

} // verus!
