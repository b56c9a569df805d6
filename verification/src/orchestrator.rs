use vstd::prelude::*;

use crate::bridge::bridge;
use crate::trampoline::trampoline;
use crate::value_box::ValueBox;

verus! {

/// Runs `closure` on `argument`, once, through the full erasure protocol,
/// and yields exactly what a direct call would: any guarantee the closure
/// makes of its result holds of what `invoke` returns.
///
/// The closure and the argument are each moved onto the heap, carried
/// through the type-blind relay to the trampoline specialized for this
/// (closure, argument, result) triple — picked here, at specialization
/// time, never looked up at run time — and the boxed result is unwrapped
/// for the caller. Each of the three values is boxed once and consumed
/// once; nothing of them remains here after the call returns.
pub fn invoke<F, A, R>(closure: F, argument: A) -> (result: R) where F: FnOnce(A) -> R
    requires
        call_requires(closure, (argument,)),
    ensures
        call_ensures(closure, (argument,), result),
{
    let closure_box = ValueBox::materialize(closure);
    let argument_box = ValueBox::materialize(argument);
    let result_box = bridge(closure_box, argument_box, trampoline::<F, A, R>);
    result_box.consume()
}

/// Invoking agrees with calling the closure directly: `invoke` ensures of
/// its result exactly what the closure's own contract ensures of a direct
/// call's result, so when that contract admits a single outcome for
/// `argument`, the two results are one and the same value.
pub proof fn lemma_invoke_agrees_with_direct_call<F, A, R>(
    closure: F,
    argument: A,
    bridged: R,
    direct: R,
) where F: FnOnce(A) -> R
    requires
        call_ensures(closure, (argument,), bridged),
        call_ensures(closure, (argument,), direct),
        forall|r1: R, r2: R|
            call_ensures(closure, (argument,), r1) && call_ensures(closure, (argument,), r2)
                ==> r1 == r2,
    ensures
        bridged == direct,
{
}

} // verus!
