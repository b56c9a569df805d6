use vstd::prelude::*;

use crate::value_box::ValueBox;

verus! {

/// The type-specialized side of the erasure protocol, one instance per
/// (closure type, argument type, result type) triple.
///
/// It rebuilds the closure and the argument from the boxes that carried
/// them across the type-blind relay, runs the closure exactly once —
/// consuming both the captured environment and the argument — and moves
/// the result into a fresh box for the trip back. Whatever the closure
/// itself guarantees of its result is guaranteed of the box's content.
pub fn trampoline<F, A, R>(closure_box: ValueBox<F>, argument_box: ValueBox<A>) -> (result_box:
    ValueBox<R>) where F: FnOnce(A) -> R
    requires
        call_requires(closure_box@, (argument_box@,)),
    ensures
        call_ensures(closure_box@, (argument_box@,), result_box@),
{
    let closure = closure_box.consume();
    let argument = argument_box.consume();
    let result = closure(argument);
    ValueBox::materialize(result)
}

} // verus!
