//! A write-once memoization cell owned by a single object.

use vstd::prelude::*;

verus! {

/// A value that is computed at most once and then kept for the lifetime of its owner.
///
/// The cell starts out empty. The first [`CachedValue::set`] populates it; later calls
/// leave the stored value untouched.
pub struct CachedValue<T> {
    value: Option<T>,
}

impl<T> View for CachedValue<T> {
    type V = Option<T>;

    closed spec fn view(&self) -> Option<T> {
        self.value
    }
}

impl<T> CachedValue<T> {
    /// Creates a cell that holds nothing yet.
    pub fn new_empty() -> (cell: Self)
        ensures
            cell@ is None,
    {
        CachedValue { value: None }
    }

    /// Creates a cell that is already populated with `value`.
    pub fn new_with_value(value: T) -> (cell: Self)
        ensures
            cell@ == Some(value),
    {
        CachedValue { value: Some(value) }
    }

    /// Whether the cell has been populated.
    pub fn is_cached(&self) -> (cached: bool)
        ensures
            cached == (self@ is Some),
    {
        self.value.is_some()
    }

    /// Populates the cell if it is still empty. A populated cell keeps its first value,
    /// and `value` is dropped.
    pub fn set(&mut self, value: T)
        ensures
            final(self)@ == (if old(self)@ is Some { old(self)@ } else { Some(value) }),
    {
        if self.value.is_none() {
            self.value = Some(value);
        }
    }

    /// The stored value. The cell must have been populated.
    pub fn get(&self) -> (value: &T)
        requires
            self@ is Some,
        ensures
            self@ == Some(*value),
    {
        self.value.as_ref().unwrap()
    }
}

} // verus!
