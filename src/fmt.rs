//! Formatting for [`Flex`], forwarded to the value held.
use vstd::prelude::*;

use core::ops::Deref;

use crate::Flex;

verus! {

/// std's `fmt::Formatter`, carried through to the value's own formatting.
#[verifier::external_type_specification]
#[verifier::external_body]
pub struct ExFormatter<'a>(core::fmt::Formatter<'a>);

/// std's `fmt::Error`, as the value's own formatting reports it.
#[verifier::external_type_specification]
#[verifier::external_body]
pub struct ExFmtError(core::fmt::Error);

impl<'a, T: ?Sized + core::fmt::Binary> core::fmt::Binary for Flex<'a, T> {
    fn fmt(&self, f: &mut core::fmt::Formatter<'_>) -> (r: core::fmt::Result)
        ensures
            exists|g: &mut core::fmt::Formatter<'_>| call_ensures(
                fmt_binary::<T>,
                (self.value(), g),
                r,
            ),
    {
        fmt_binary(self.deref(), f)
    }
}

/// Relies on `T`'s own `Binary::fmt`: writes `v` to `f`.
#[verifier::external_body]
pub fn fmt_binary<T: ?Sized + core::fmt::Binary>(v: &T, f: &mut core::fmt::Formatter<'_>) -> core::fmt::Result {
    core::fmt::Binary::fmt(v, f)
}

impl<'a, T: ?Sized + core::fmt::Octal> core::fmt::Octal for Flex<'a, T> {
    fn fmt(&self, f: &mut core::fmt::Formatter<'_>) -> (r: core::fmt::Result)
        ensures
            exists|g: &mut core::fmt::Formatter<'_>| call_ensures(
                fmt_octal::<T>,
                (self.value(), g),
                r,
            ),
    {
        fmt_octal(self.deref(), f)
    }
}

/// Relies on `T`'s own `Octal::fmt`: writes `v` to `f`.
#[verifier::external_body]
pub fn fmt_octal<T: ?Sized + core::fmt::Octal>(v: &T, f: &mut core::fmt::Formatter<'_>) -> core::fmt::Result {
    core::fmt::Octal::fmt(v, f)
}

impl<'a, T: ?Sized + core::fmt::LowerHex> core::fmt::LowerHex for Flex<'a, T> {
    fn fmt(&self, f: &mut core::fmt::Formatter<'_>) -> (r: core::fmt::Result)
        ensures
            exists|g: &mut core::fmt::Formatter<'_>| call_ensures(
                fmt_lower_hex::<T>,
                (self.value(), g),
                r,
            ),
    {
        fmt_lower_hex(self.deref(), f)
    }
}

/// Relies on `T`'s own `LowerHex::fmt`: writes `v` to `f`.
#[verifier::external_body]
pub fn fmt_lower_hex<T: ?Sized + core::fmt::LowerHex>(v: &T, f: &mut core::fmt::Formatter<'_>) -> core::fmt::Result {
    core::fmt::LowerHex::fmt(v, f)
}

impl<'a, T: ?Sized + core::fmt::UpperHex> core::fmt::UpperHex for Flex<'a, T> {
    fn fmt(&self, f: &mut core::fmt::Formatter<'_>) -> (r: core::fmt::Result)
        ensures
            exists|g: &mut core::fmt::Formatter<'_>| call_ensures(
                fmt_upper_hex::<T>,
                (self.value(), g),
                r,
            ),
    {
        fmt_upper_hex(self.deref(), f)
    }
}

/// Relies on `T`'s own `UpperHex::fmt`: writes `v` to `f`.
#[verifier::external_body]
pub fn fmt_upper_hex<T: ?Sized + core::fmt::UpperHex>(v: &T, f: &mut core::fmt::Formatter<'_>) -> core::fmt::Result {
    core::fmt::UpperHex::fmt(v, f)
}

impl<'a, T: ?Sized + core::fmt::LowerExp> core::fmt::LowerExp for Flex<'a, T> {
    fn fmt(&self, f: &mut core::fmt::Formatter<'_>) -> (r: core::fmt::Result)
        ensures
            exists|g: &mut core::fmt::Formatter<'_>| call_ensures(
                fmt_lower_exp::<T>,
                (self.value(), g),
                r,
            ),
    {
        fmt_lower_exp(self.deref(), f)
    }
}

/// Relies on `T`'s own `LowerExp::fmt`: writes `v` to `f`.
#[verifier::external_body]
pub fn fmt_lower_exp<T: ?Sized + core::fmt::LowerExp>(v: &T, f: &mut core::fmt::Formatter<'_>) -> core::fmt::Result {
    core::fmt::LowerExp::fmt(v, f)
}

impl<'a, T: ?Sized + core::fmt::UpperExp> core::fmt::UpperExp for Flex<'a, T> {
    fn fmt(&self, f: &mut core::fmt::Formatter<'_>) -> (r: core::fmt::Result)
        ensures
            exists|g: &mut core::fmt::Formatter<'_>| call_ensures(
                fmt_upper_exp::<T>,
                (self.value(), g),
                r,
            ),
    {
        fmt_upper_exp(self.deref(), f)
    }
}

/// Relies on `T`'s own `UpperExp::fmt`: writes `v` to `f`.
#[verifier::external_body]
pub fn fmt_upper_exp<T: ?Sized + core::fmt::UpperExp>(v: &T, f: &mut core::fmt::Formatter<'_>) -> core::fmt::Result {
    core::fmt::UpperExp::fmt(v, f)
}

impl<'a, T: ?Sized> core::fmt::Pointer for Flex<'a, T> {
    fn fmt(&self, f: &mut core::fmt::Formatter<'_>) -> (r: core::fmt::Result)
        ensures
            exists|g: &mut core::fmt::Formatter<'_>| call_ensures(
                fmt_pointer::<T>,
                (self.value(), g),
                r,
            ),
    {
        fmt_pointer(self.deref(), f)
    }
}

/// Relies on `Pointer::fmt` of `&T`: writes the address of `v` to `f`.
#[verifier::external_body]
pub fn fmt_pointer<T: ?Sized>(v: &T, f: &mut core::fmt::Formatter<'_>) -> core::fmt::Result {
    core::fmt::Pointer::fmt(&v, f)
}

impl<'a, T: ?Sized + core::fmt::Display> Flex<'a, T> {
    /// The value held, written with its own `Display`, the same in either
    /// state.
    pub fn to_string(&self) -> (s: String)
        ensures
            call_ensures(display_string::<T>, (self.value(),), s),
    {
        display_string(self.deref())
    }
}

/// Relies on `ToString::to_string` of `T`: `v` written with its `Display`.
#[verifier::external_body]
pub fn display_string<T: ?Sized + core::fmt::Display>(v: &T) -> String {
    v.to_string()
}

} // verus!
