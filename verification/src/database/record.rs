//! A stored value together with the key under which it is stored.
use vstd::prelude::*;

use super::primary_key::PrimaryKey;
use super::traits::Indexable;

verus! {

/// A value with the primary key that the store gave it.
#[derive(Debug, PartialEq, Eq)]
pub struct Record<T: Indexable> {
    pub identifier: PrimaryKey<T>,
    pub value: T,
}

impl<T: Indexable> Record<T> {
    /// Take ownership of the value and drop the key.
    pub fn into_inner(self) -> (value: T)
        ensures
            value == self.value,
    {
        self.value
    }
}

impl<T: Indexable> core::ops::Deref for Record<T> {
    type Target = T;

    fn deref(&self) -> (value: &T)
        ensures
            *value == self.value,
    {
        &self.value
    }
}

} // verus!
