//! What this library takes on trust from std's conversions between
//! references, boxes and their owned counterparts.
use vstd::prelude::*;

verus! {

/// Relies on std's `Default for &[T]`: the empty slice.
pub assume_specification<'a, T>[ <&'a [T] as Default>::default ]() -> (r: &'a [T])
    ensures
        r@ == Seq::<T>::empty(),
;

/// Relies on std's `From<&str> for Box<str>`: a copy of the text.
pub assume_specification<'a>[ <Box<str> as From<&'a str>>::from ](s: &str) -> (r: Box<str>)
    ensures
        r@ == s@,
;

/// Relies on std's `From<&[T]> for Box<[T]>`: a clone of each element, in
/// order.
pub assume_specification<'a, T: Clone>[ <Box<[T]> as From<&'a [T]>>::from ](s: &[T]) -> (r: Box<[T]>)
    ensures
        r@.len() == s@.len(),
        forall|i: int| 0 <= i < s@.len() ==> cloned::<T>(#[trigger] s@[i], r@[i]),
;

/// Relies on std's `From<String> for Box<str>`: the same text.
pub assume_specification[ <Box<str> as From<String>>::from ](s: String) -> (r: Box<str>)
    ensures
        r@ == s@,
;

/// Relies on std's `From<Box<str>> for String`: the same text.
pub assume_specification[ <String as From<Box<str>>>::from ](b: Box<str>) -> (r: String)
    ensures
        r@ == b@,
;

} // verus!
