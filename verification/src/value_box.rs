use vstd::prelude::*;

verus! {

/// A box that owns a single heap-allocated value.
///
/// Together, `materialize` and `consume` form a linear, use-once resource:
/// a `ValueBox` can only be created by moving a value in, and can only be
/// taken apart by moving the value back out, which destroys the box. There
/// is no way to read the value twice, drop it without reconstruction, or
/// reconstruct it at a different type, so double-consumption and type
/// confusion are unrepresentable.
pub struct ValueBox<T> {
    boxed: Box<T>,
}

impl<T> View for ValueBox<T> {
    type V = T;

    closed spec fn view(&self) -> T {
        *self.boxed
    }
}

impl<T> ValueBox<T> {
    /// Moves `value` onto a fresh heap allocation and hands back the box
    /// that owns it.
    pub fn materialize(value: T) -> (b: ValueBox<T>)
        ensures
            b@ == value,
    {
        ValueBox { boxed: Box::new(value) }
    }

    /// Frees the box and returns ownership of the exact value that
    /// `materialize` put in.
    pub fn consume(self) -> (value: T)
        ensures
            value == self@,
    {
        *self.boxed
    }
}

} // verus!
