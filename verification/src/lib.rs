//! Invoke a consume-once closure through an explicit ownership-transfer
//! protocol: the closure and its argument are each moved into a heap box,
//! handed through a control-transfer relay to a type-specialized trampoline
//! that rebuilds them, runs the closure exactly once, and boxes the result,
//! which the orchestrator finally unwraps for the caller.

mod bridge;
mod orchestrator;
mod trampoline;
mod value_box;

pub use bridge::bridge;
pub use orchestrator::invoke;
pub use orchestrator::lemma_invoke_agrees_with_direct_call;
pub use trampoline::trampoline;
pub use value_box::ValueBox;
