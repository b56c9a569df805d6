use vstd::prelude::*;

verus! {

/// The control-transfer relay between the orchestrator and the trampoline.
///
/// It is deliberately blind to its cargo: generic over the closure carrier,
/// the argument carrier and the result carrier alike, it does no type-aware
/// work of its own. It only forwards control — a genuine nested call, not a
/// tail call — to the trampoline it is given, hands it the two carriers, and
/// relays the carrier that comes back, unchanged, to its own caller. Every
/// guarantee about the result is the trampoline's, passed through.
pub fn bridge<C, A, R, Tramp>(closure_carrier: C, argument_carrier: A, trampoline_fn: Tramp) -> (result_carrier:
    R) where Tramp: FnOnce(C, A) -> R
    requires
        call_requires(trampoline_fn, (closure_carrier, argument_carrier)),
    ensures
        call_ensures(trampoline_fn, (closure_carrier, argument_carrier), result_carrier),
{
    trampoline_fn(closure_carrier, argument_carrier)
}

} // verus!
