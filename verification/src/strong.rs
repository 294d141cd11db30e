use vstd::prelude::*;

verus! {

/// A strongly typed wrapper around a value of type `T`: the wrapper type
/// carries the meaning (a user name, a salt, an album id) while `T` is the
/// plain representation.  Implementations state what the accessors return.
pub trait Strong<T>: Sized {
    /// Unwraps the value.
    fn get(self) -> T;

    /// Borrows the wrapped value.
    fn get_ref(&self) -> &T;
}

} // verus!
