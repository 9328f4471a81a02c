//! `Flex<'a, T>` holds a value of a possibly unsized type `T` either
//! borrowed for `'a` or owned in a box, and behaves as that value in both
//! cases: comparison, hashing, formatting, indexing and dereferencing all go
//! to the value held, so that the state shows only through `Debug` and the
//! conversions `into_box` and `claim`.
use vstd::prelude::*;

use core::ops::Deref;

mod convert;
mod derive;
mod fmt;
pub mod laws;
mod std_facts;

verus! {

/// Either a borrowed `&'a T` or an owned `Box<T>` of the same, possibly
/// unsized, type `T`.
#[derive(Debug)]
pub enum Flex<'a, T: ?Sized> {
    /// A borrowed reference to data with lifetime `'a`.
    Lend(&'a T),
    /// An owned, heap-allocated value.
    Give(Box<T>),
}

impl<'a, T: ?Sized> Flex<'a, T> {
    /// The value held, whichever state holds it.
    pub open spec fn value(&self) -> &T {
        match self {
            Flex::Lend(r) => r,
            Flex::Give(b) => &**b,
        }
    }
}

/// The default container lends the default reference (the empty slice, the
/// empty text); it never allocates.
impl<'a, T: ?Sized> Default for Flex<'a, T> where &'a T: Default {
    fn default() -> (r: Self)
        ensures
            r matches Flex::Lend(x) && call_ensures(<&'a T as Default>::default, (), x),
    {
        Flex::Lend(Default::default())
    }
}

/// Indexing goes to the value held, with its own bounds: an index that `T`
/// refuses is refused here too.
impl<'a, T: ?Sized + core::ops::Index<I>, I> core::ops::Index<I> for Flex<'a, T> {
    type Output = T::Output;

    fn index(&self, index: I) -> (r: &Self::Output)
        ensures
            call_ensures(<T as core::ops::Index<I>>::index, (self.value(), index), r),
    {
        core::ops::Index::index(self.deref(), index)
    }
}

impl<'a, T: ?Sized + core::ops::Index<I>, I> vstd::std_specs::core::IndexSpecImpl<I> for Flex<'a, T> {
    open spec fn index_req(&self, index: &I) -> bool {
        <T as vstd::std_specs::core::IndexSpec<I>>::index_req(self.value(), index)
    }
}

impl<'a, T: ?Sized> Flex<'a, T> where Box<T>: From<&'a T> {
    /// The value held as a box: the box held, unchanged, for `Give`; a new
    /// box made by `Box::from` of the reference for `Lend`.
    pub fn into_box(self) -> (r: Box<T>)
        ensures
            match self {
                Flex::Lend(x) => call_ensures(<Box<T> as From<&'a T>>::from, (x,), r),
                Flex::Give(b) => r == b,
            },
    {
        match self {
            Flex::Lend(r) => Box::from(r),
            Flex::Give(b) => b,
        }
    }

    /// An owned container, free of the lifetime `'a`, holding the box that
    /// `into_box` gives: already owned data is handed on without a copy.
    pub fn claim<'b>(self) -> (r: Flex<'b, T>)
        ensures
            r matches Flex::Give(b) && match self {
                Flex::Lend(x) => call_ensures(<Box<T> as From<&'a T>>::from, (x,), b),
                Flex::Give(c) => b == c,
            },
    {
        Flex::Give(self.into_box())
    }
}

} // verus!
