//! Conversions into and out of [`Flex`]: from plain references, from
//! boxes, and to and from `Cow`.
use vstd::prelude::*;

use core::borrow::Borrow;
use core::ops::Deref;
use std::borrow::{Cow, ToOwned};

use crate::Flex;
use vstd::std_specs::convert::{FromSpec, IntoSpec};

verus! {

impl<'a, T: ?Sized> Borrow<T> for Flex<'a, T> {
    // No named result here: Verus checks one against a call `self.borrow()`,
    // which rustc cannot tell from std's `Borrow<Self> for Self`. The body is
    // `deref`, whose contract gives the value held.
    fn borrow(&self) -> &T {
        self.deref()
    }
}

impl<'a, T: ?Sized + AsRef<U>, U: ?Sized> AsRef<U> for Flex<'a, T> {
    fn as_ref(&self) -> (r: &U)
        ensures
            call_ensures(value_as_ref::<T, U>, (self.value(),), r),
    {
        value_as_ref(self.deref())
    }
}

/// Relies on `T`'s own `AsRef::as_ref`: the view of `v` as a `U`.
#[verifier::external_body]
pub fn value_as_ref<T: ?Sized + AsRef<U>, U: ?Sized>(v: &T) -> &U {
    v.as_ref()
}

impl<'a, T: ?Sized> From<&'a T> for Flex<'a, T> {
    fn from(r: &'a T) -> (f: Self)
        ensures
            f == Flex::<'a, T>::Lend(r),
    {
        Flex::Lend(r)
    }
}

impl<'a, T: ?Sized> vstd::std_specs::convert::FromSpecImpl<&'a T> for Flex<'a, T> {
    open spec fn obeys_from_spec() -> bool {
        true
    }

    open spec fn from_spec(r: &'a T) -> Self {
        Flex::Lend(r)
    }
}

impl<'a, T: ?Sized> From<&'a mut T> for Flex<'a, T> {
    fn from(r: &'a mut T) -> (f: Self)
        ensures
            f matches Flex::Lend(x) && x == &*old(r),
    {
        Flex::Lend(r)
    }
}

impl<'a, T: ?Sized> vstd::std_specs::convert::FromSpecImpl<&'a mut T> for Flex<'a, T> {
    open spec fn obeys_from_spec() -> bool {
        true
    }

    open spec fn from_spec(r: &'a mut T) -> Self {
        Flex::Lend(&*r)
    }
}

impl<'a, T: ?Sized> From<Box<T>> for Flex<'a, T> {
    fn from(b: Box<T>) -> (f: Self)
        ensures
            f == Flex::<'a, T>::Give(b),
    {
        Flex::Give(b)
    }
}

impl<'a, T: ?Sized> vstd::std_specs::convert::FromSpecImpl<Box<T>> for Flex<'a, T> {
    open spec fn obeys_from_spec() -> bool {
        true
    }

    open spec fn from_spec(b: Box<T>) -> Self {
        Flex::Give(b)
    }
}

impl<'a, T: ?Sized + ToOwned> From<Cow<'a, T>> for Flex<'a, T> where T::Owned: Into<Box<T>> {
    fn from(c: Cow<'a, T>) -> (f: Self)
        ensures
            match c {
                Cow::Borrowed(r) => f == Flex::<'a, T>::Lend(r),
                Cow::Owned(o) => f matches Flex::Give(b) && call_ensures(
                    <T::Owned as Into<Box<T>>>::into,
                    (o,),
                    b,
                ),
            },
    {
        match c {
            Cow::Borrowed(r) => Flex::Lend(r),
            Cow::Owned(o) => Flex::Give(o.into()),
        }
    }
}

impl<'a, T: ?Sized + ToOwned> vstd::std_specs::convert::FromSpecImpl<Cow<'a, T>> for Flex<'a, T> where T::Owned: Into<Box<T>> {
    open spec fn obeys_from_spec() -> bool {
        <T::Owned as IntoSpec<Box<T>>>::obeys_into_spec()
    }

    open spec fn from_spec(c: Cow<'a, T>) -> Self {
        match c {
            Cow::Borrowed(r) => Flex::Lend(r),
            Cow::Owned(o) => Flex::Give(<T::Owned as IntoSpec<Box<T>>>::into_spec(o)),
        }
    }
}

impl<'a, T: ?Sized + ToOwned> From<Flex<'a, T>> for Cow<'a, T> where T::Owned: From<Box<T>> {
    fn from(f: Flex<'a, T>) -> (c: Self)
        ensures
            match f {
                Flex::Lend(r) => c == Cow::<'a, T>::Borrowed(r),
                Flex::Give(b) => c matches Cow::Owned(o) && call_ensures(
                    <T::Owned as From<Box<T>>>::from,
                    (b,),
                    o,
                ),
            },
    {
        match f {
            Flex::Lend(r) => Cow::Borrowed(r),
            Flex::Give(b) => Cow::Owned(T::Owned::from(b)),
        }
    }
}

impl<'a, T: ?Sized + ToOwned> vstd::std_specs::convert::FromSpecImpl<Flex<'a, T>> for Cow<'a, T> where T::Owned: From<Box<T>> {
    open spec fn obeys_from_spec() -> bool {
        <T::Owned as FromSpec<Box<T>>>::obeys_from_spec()
    }

    open spec fn from_spec(f: Flex<'a, T>) -> Self {
        match f {
            Flex::Lend(r) => Cow::Borrowed(r),
            Flex::Give(b) => Cow::Owned(<T::Owned as FromSpec<Box<T>>>::from_spec(b)),
        }
    }
}

} // verus!
