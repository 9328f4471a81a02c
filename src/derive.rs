//! Comparison, hashing and cloning for [`Flex`], each forwarded to the
//! value held so that the state that holds it never shows.
use vstd::prelude::*;

use core::ops::Deref;

use crate::Flex;
use vstd::std_specs::cmp::{OrdSpec, PartialEqSpec, PartialOrdSpec};

verus! {

impl<'a, T: ?Sized> Deref for Flex<'a, T> {
    type Target = T;

    fn deref(&self) -> (r: &T)
        ensures
            r == self.value(),
    {
        match self {
            Flex::Lend(r) => r,
            Flex::Give(b) => b,
        }
    }
}

impl<'a, T: ?Sized> Clone for Flex<'a, T> where Box<T>: Clone {
    fn clone(&self) -> (r: Self)
        ensures
            match self {
                Flex::Lend(x) => r == Flex::<'a, T>::Lend(*x),
                Flex::Give(b) => r matches Flex::Give(c) && call_ensures(
                    <Box<T> as Clone>::clone,
                    (b,),
                    c,
                ),
            },
    {
        match self {
            Flex::Lend(r) => Flex::Lend(*r),
            Flex::Give(b) => Flex::Give(b.clone()),
        }
    }
}

impl<'a, T: ?Sized + Eq> Eq for Flex<'a, T> {}

impl<'a, T: ?Sized + PartialEq> PartialEq for Flex<'a, T> {
    fn eq(&self, other: &Self) -> (r: bool)
        ensures
            call_ensures(<T as PartialEq>::eq, (self.value(), other.value()), r),
    {
        self.deref().eq(other.deref())
    }
}

impl<'a, T: ?Sized + PartialEq> vstd::std_specs::cmp::PartialEqSpecImpl for Flex<'a, T> {
    open spec fn obeys_eq_spec() -> bool {
        <T as PartialEqSpec>::obeys_eq_spec()
    }

    open spec fn eq_spec(&self, other: &Self) -> bool {
        <T as PartialEqSpec>::eq_spec(self.value(), other.value())
    }
}

impl<'a, T: ?Sized + PartialEq> PartialEq<T> for Flex<'a, T> {
    fn eq(&self, other: &T) -> (r: bool)
        ensures
            call_ensures(<T as PartialEq>::eq, (self.value(), other), r),
    {
        self.deref().eq(other)
    }
}

impl<'a, T: ?Sized + PartialEq> vstd::std_specs::cmp::PartialEqSpecImpl<T> for Flex<'a, T> {
    open spec fn obeys_eq_spec() -> bool {
        <T as PartialEqSpec>::obeys_eq_spec()
    }

    open spec fn eq_spec(&self, other: &T) -> bool {
        <T as PartialEqSpec>::eq_spec(self.value(), other)
    }
}

impl<'a, 'b, T: ?Sized + PartialEq> PartialEq<&'b T> for Flex<'a, T> {
    fn eq(&self, other: &&'b T) -> (r: bool)
        ensures
            call_ensures(<T as PartialEq>::eq, (self.value(), *other), r),
    {
        self.deref().eq(*other)
    }
}

impl<'a, 'b, T: ?Sized + PartialEq> vstd::std_specs::cmp::PartialEqSpecImpl<&'b T> for Flex<'a, T> {
    open spec fn obeys_eq_spec() -> bool {
        <T as PartialEqSpec>::obeys_eq_spec()
    }

    open spec fn eq_spec(&self, other: &&'b T) -> bool {
        <T as PartialEqSpec>::eq_spec(self.value(), *other)
    }
}

impl<'a, T: ?Sized + PartialEq> PartialEq<Box<T>> for Flex<'a, T> {
    fn eq(&self, other: &Box<T>) -> (r: bool)
        ensures
            call_ensures(<T as PartialEq>::eq, (self.value(), &**other), r),
    {
        self.deref().eq(&**other)
    }
}

impl<'a, T: ?Sized + PartialEq> vstd::std_specs::cmp::PartialEqSpecImpl<Box<T>> for Flex<'a, T> {
    open spec fn obeys_eq_spec() -> bool {
        <T as PartialEqSpec>::obeys_eq_spec()
    }

    open spec fn eq_spec(&self, other: &Box<T>) -> bool {
        <T as PartialEqSpec>::eq_spec(self.value(), &**other)
    }
}

impl<'a, T: ?Sized + PartialOrd> PartialOrd for Flex<'a, T> {
    fn partial_cmp(&self, other: &Self) -> (r: Option<core::cmp::Ordering>)
        ensures
            call_ensures(<T as PartialOrd>::partial_cmp, (self.value(), other.value()), r),
    {
        self.deref().partial_cmp(other.deref())
    }
}

impl<'a, T: ?Sized + PartialOrd> vstd::std_specs::cmp::PartialOrdSpecImpl for Flex<'a, T> {
    open spec fn obeys_partial_cmp_spec() -> bool {
        <T as PartialOrdSpec>::obeys_partial_cmp_spec()
    }

    open spec fn partial_cmp_spec(&self, other: &Self) -> Option<core::cmp::Ordering> {
        <T as PartialOrdSpec>::partial_cmp_spec(self.value(), other.value())
    }
}

impl<'a, T: ?Sized + PartialOrd> PartialOrd<T> for Flex<'a, T> {
    fn partial_cmp(&self, other: &T) -> (r: Option<core::cmp::Ordering>)
        ensures
            call_ensures(<T as PartialOrd>::partial_cmp, (self.value(), other), r),
    {
        self.deref().partial_cmp(other)
    }
}

impl<'a, T: ?Sized + PartialOrd> vstd::std_specs::cmp::PartialOrdSpecImpl<T> for Flex<'a, T> {
    open spec fn obeys_partial_cmp_spec() -> bool {
        <T as PartialOrdSpec>::obeys_partial_cmp_spec()
    }

    open spec fn partial_cmp_spec(&self, other: &T) -> Option<core::cmp::Ordering> {
        <T as PartialOrdSpec>::partial_cmp_spec(self.value(), other)
    }
}

impl<'a, 'b, T: ?Sized + PartialOrd> PartialOrd<&'b T> for Flex<'a, T> {
    fn partial_cmp(&self, other: &&'b T) -> (r: Option<core::cmp::Ordering>)
        ensures
            call_ensures(<T as PartialOrd>::partial_cmp, (self.value(), *other), r),
    {
        self.deref().partial_cmp(*other)
    }
}

impl<'a, 'b, T: ?Sized + PartialOrd> vstd::std_specs::cmp::PartialOrdSpecImpl<&'b T> for Flex<'a, T> {
    open spec fn obeys_partial_cmp_spec() -> bool {
        <T as PartialOrdSpec>::obeys_partial_cmp_spec()
    }

    open spec fn partial_cmp_spec(&self, other: &&'b T) -> Option<core::cmp::Ordering> {
        <T as PartialOrdSpec>::partial_cmp_spec(self.value(), *other)
    }
}

impl<'a, T: ?Sized + PartialOrd> PartialOrd<Box<T>> for Flex<'a, T> {
    fn partial_cmp(&self, other: &Box<T>) -> (r: Option<core::cmp::Ordering>)
        ensures
            call_ensures(<T as PartialOrd>::partial_cmp, (self.value(), &**other), r),
    {
        self.deref().partial_cmp(&**other)
    }
}

impl<'a, T: ?Sized + PartialOrd> vstd::std_specs::cmp::PartialOrdSpecImpl<Box<T>> for Flex<'a, T> {
    open spec fn obeys_partial_cmp_spec() -> bool {
        <T as PartialOrdSpec>::obeys_partial_cmp_spec()
    }

    open spec fn partial_cmp_spec(&self, other: &Box<T>) -> Option<core::cmp::Ordering> {
        <T as PartialOrdSpec>::partial_cmp_spec(self.value(), &**other)
    }
}

impl<'a, T: ?Sized + Ord> Ord for Flex<'a, T> {
    /// Relies on `T`'s own `Ord::cmp`, applied to the two values held.
    #[verifier::external_body]
    fn cmp(&self, other: &Self) -> (r: core::cmp::Ordering)
        ensures
            call_ensures(<T as Ord>::cmp, (self.value(), other.value()), r),
            <T as OrdSpec>::obeys_cmp_spec() ==> r == <T as OrdSpec>::cmp_spec(
                self.value(),
                other.value(),
            ),
    {
        self.deref().cmp(other.deref())
    }
}

impl<'a, T: ?Sized + core::hash::Hash> core::hash::Hash for Flex<'a, T> {
    fn hash<H: core::hash::Hasher>(&self, state: &mut H)
        ensures
            exists|g: &mut H| call_ensures(hash_value::<T, H>, (self.value(), g), ()),
    {
        hash_value(self.deref(), state)
    }
}

/// Relies on `T`'s own `Hash::hash`: `v` is fed to `state` exactly as
/// hashing it directly would.
#[verifier::external_body]
pub fn hash_value<T: ?Sized + core::hash::Hash, H: core::hash::Hasher>(v: &T, state: &mut H) {
    v.hash(state)
}

} // verus!
