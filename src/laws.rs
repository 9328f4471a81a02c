//! Laws that tie the operations on [`Flex`] together: whichever state holds
//! a value, the container behaves as that value.
use vstd::prelude::*;

use core::ops::Deref;
use std::borrow::{Cow, ToOwned};

use crate::Flex;
use vstd::std_specs::cmp::{PartialEqSpec, PartialOrdSpec};

verus! {

/// Dereferencing shows the value held, in either state: a `Lend` of `v` and
/// a `Give` of a box that holds the same value both dereference to `v`.
pub proof fn lemma_deref_either_state<'a, T: ?Sized>(v: &'a T, b: Box<T>, x: &T, y: &T)
    requires
        &*b == v,
        call_ensures(<Flex<'a, T> as Deref>::deref, (&Flex::<'a, T>::Lend(v),), x),
        call_ensures(<Flex<'a, T> as Deref>::deref, (&Flex::<'a, T>::Give(b),), y),
    ensures
        x == v,
        y == v,
{
}

/// Two containers compare equal exactly when `T`'s own `==` deems the
/// values they hold equal, whatever states hold them.
pub proof fn lemma_eq_ignores_state<'a, T: ?Sized + PartialEq>(
    s1: Flex<'a, T>,
    s2: Flex<'a, T>,
    r: bool,
)
    requires
        <T as PartialEqSpec>::obeys_eq_spec(),
        call_ensures(<Flex<'a, T> as PartialEq>::eq, (&s1, &s2), r),
    ensures
        r == <T as PartialEqSpec>::eq_spec(s1.value(), s2.value()),
{
}

/// Containers order as the values they hold, whatever states hold them:
/// `s1 < s2` exactly when `T` orders the value of `s1` before that of `s2`.
pub proof fn lemma_lt_ignores_state<'a, T: ?Sized + PartialOrd>(
    s1: Flex<'a, T>,
    s2: Flex<'a, T>,
    r: bool,
)
    requires
        <T as PartialOrdSpec>::obeys_partial_cmp_spec(),
        call_ensures(<Flex<'a, T> as PartialOrd>::lt, (&s1, &s2), r),
    ensures
        r <==> <T as PartialOrdSpec>::partial_cmp_spec(s1.value(), s2.value()) == Some(
            core::cmp::Ordering::Less,
        ),
{
}

/// For `i32` values: two containers are equal exactly when their numbers
/// are, and one is less than the other exactly when its number is, whatever
/// states hold them.
pub proof fn lemma_i32_compare_as_numbers<'a>(
    s1: Flex<'a, i32>,
    s2: Flex<'a, i32>,
    e: bool,
    l: bool,
)
    requires
        call_ensures(<Flex<'a, i32> as PartialEq>::eq, (&s1, &s2), e),
        call_ensures(<Flex<'a, i32> as PartialOrd>::lt, (&s1, &s2), l),
    ensures
        e == (*s1.value() == *s2.value()),
        l == (*s1.value() < *s2.value()),
{
    lemma_eq_ignores_state(s1, s2, e);
    lemma_lt_ignores_state(s1, s2, l);
}

/// Claiming twice is claiming once: the second `claim` hands on the very box
/// that the first produced, so both hold the same value.
pub proof fn lemma_claim_idempotent<'a, 'b, 'c, T: ?Sized>(
    x: Flex<'a, T>,
    y: Flex<'b, T>,
    z: Flex<'c, T>,
) where for<'x> Box<T>: From<&'x T>
    requires
        call_ensures(Flex::<'a, T>::claim::<'b>, (x,), y),
        call_ensures(Flex::<'b, T>::claim::<'c>, (y,), z),
    ensures
        y is Give,
        z is Give,
        z->Give_0 == y->Give_0,
        z.value() == y.value(),
{
}

/// Lending text and then taking it as a box gives back the same text.
pub proof fn lemma_into_box_round_trip_str<'a>(s: &'a str, f: Flex<'a, str>, b: Box<str>)
    requires
        call_ensures(<Flex<'a, str> as From<&'a str>>::from, (s,), f),
        call_ensures(Flex::<'a, str>::into_box, (f,), b),
    ensures
        b@ == s@,
{
}

/// Lending a slice and then taking it as a box gives back a slice of the
/// same length whose elements are clones of the lent ones, in order.
pub proof fn lemma_into_box_round_trip_slice<'a, T: Clone>(
    s: &'a [T],
    f: Flex<'a, [T]>,
    b: Box<[T]>,
)
    requires
        call_ensures(<Flex<'a, [T]> as From<&'a [T]>>::from, (s,), f),
        call_ensures(Flex::<'a, [T]>::into_box, (f,), b),
    ensures
        b@.len() == s@.len(),
        forall|i: int| 0 <= i < s@.len() ==> cloned::<T>(#[trigger] s@[i], b@[i]),
{
}

/// A borrowed `Cow` taken into a container and back is the same borrowed
/// `Cow`.
pub proof fn lemma_cow_round_trip_borrowed<'a, T: ?Sized + ToOwned>(
    r: &'a T,
    f: Flex<'a, T>,
    c: Cow<'a, T>,
) where T::Owned: Into<Box<T>>, T::Owned: From<Box<T>>
    requires
        call_ensures(<Flex<'a, T> as From<Cow<'a, T>>>::from, (Cow::<'a, T>::Borrowed(r),), f),
        call_ensures(<Cow<'a, T> as From<Flex<'a, T>>>::from, (f,), c),
    ensures
        c == Cow::<'a, T>::Borrowed(r),
{
}

/// An owned text `Cow` taken into a container and back is an owned `Cow`
/// with the same text.
pub proof fn lemma_cow_round_trip_owned_str<'a>(s: String, f: Flex<'a, str>, c: Cow<'a, str>)
    requires
        call_ensures(<Flex<'a, str> as From<Cow<'a, str>>>::from, (Cow::<'a, str>::Owned(s),), f),
        call_ensures(<Cow<'a, str> as From<Flex<'a, str>>>::from, (f,), c),
    ensures
        c matches Cow::Owned(t) && t@ == s@,
{
}

/// The default container of slices lends the empty slice.
pub proof fn lemma_default_slice_is_empty<'a, T>(f: Flex<'a, [T]>)
    requires
        call_ensures(<Flex<'a, [T]> as Default>::default, (), f),
    ensures
        f is Lend,
        f.value()@ == Seq::<T>::empty(),
{
}

/// The default container of text lends the empty text.
pub proof fn lemma_default_str_is_empty<'a>(f: Flex<'a, str>)
    requires
        call_ensures(<Flex<'a, str> as Default>::default, (), f),
    ensures
        f is Lend,
        f.value()@ == Seq::<char>::empty(),
{
    reveal_strlit("");
}

} // verus!
