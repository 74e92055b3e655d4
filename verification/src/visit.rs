//! What the deserializer handed over, as the executor reports it.
use vstd::prelude::*;
use vstd::std_specs::cmp::PartialEqSpecImpl;

verus! {

/// What the executor expects you to handle.
///
/// Floating-point values are carried by their IEEE-754 bit patterns
/// (`f32::to_bits` / `f64::to_bits`); equality compares them as
/// floating-point numbers: the two zeros are equal, and NaN is equal to
/// nothing, itself included.
#[derive(Copy, Clone, Debug)]
pub enum Visit {
    Bool(bool),
    I8(i8),
    I16(i16),
    I32(i32),
    I64(i64),
    I128(i128),
    U8(u8),
    U16(u16),
    U32(u32),
    U64(u64),
    U128(u128),
    /// The bit pattern of an `f32`.
    F32(u32),
    /// The bit pattern of an `f64`.
    F64(u64),
    Char(char),
    /// An optional value that is present.
    SomeValue,
    /// An optional value that is absent.
    NoneValue,
    Unit,
    Sequence,
    Mapping,
    NewtypeStruct,
    Enum,
    Str,
    Bytes,
}

/// Whether the `f32` with bit pattern `b` is a NaN.
pub open spec fn f32_bits_nan(b: u32) -> bool {
    b & 0x7f80_0000 == 0x7f80_0000 && b & 0x007f_ffff != 0
}

/// Whether the `f32` with bit pattern `b` is a zero of either sign.
pub open spec fn f32_bits_zero(b: u32) -> bool {
    b & 0x7fff_ffff == 0
}

/// IEEE-754 equality of two `f32` given by their bit patterns.
pub open spec fn f32_bits_eq(a: u32, b: u32) -> bool {
    !f32_bits_nan(a) && !f32_bits_nan(b) && (a == b || (f32_bits_zero(a) && f32_bits_zero(b)))
}

/// Whether the `f64` with bit pattern `b` is a NaN.
pub open spec fn f64_bits_nan(b: u64) -> bool {
    b & 0x7ff0_0000_0000_0000 == 0x7ff0_0000_0000_0000 && b & 0x000f_ffff_ffff_ffff != 0
}

/// Whether the `f64` with bit pattern `b` is a zero of either sign.
pub open spec fn f64_bits_zero(b: u64) -> bool {
    b & 0x7fff_ffff_ffff_ffff == 0
}

/// IEEE-754 equality of two `f64` given by their bit patterns.
pub open spec fn f64_bits_eq(a: u64, b: u64) -> bool {
    !f64_bits_nan(a) && !f64_bits_nan(b) && (a == b || (f64_bits_zero(a) && f64_bits_zero(b)))
}

/// IEEE-754 equality of two `f32` given by their bit patterns.
pub fn f32_bits_equal(a: u32, b: u32) -> (r: bool)
    ensures
        r == f32_bits_eq(a, b),
{
    let a_nan = a & 0x7f80_0000 == 0x7f80_0000 && a & 0x007f_ffff != 0;
    let b_nan = b & 0x7f80_0000 == 0x7f80_0000 && b & 0x007f_ffff != 0;
    !a_nan && !b_nan && (a == b || (a & 0x7fff_ffff == 0 && b & 0x7fff_ffff == 0))
}

/// IEEE-754 equality of two `f64` given by their bit patterns.
pub fn f64_bits_equal(a: u64, b: u64) -> (r: bool)
    ensures
        r == f64_bits_eq(a, b),
{
    let a_nan = a & 0x7ff0_0000_0000_0000 == 0x7ff0_0000_0000_0000 && a & 0x000f_ffff_ffff_ffff
        != 0;
    let b_nan = b & 0x7ff0_0000_0000_0000 == 0x7ff0_0000_0000_0000 && b & 0x000f_ffff_ffff_ffff
        != 0;
    !a_nan && !b_nan && (a == b || (a & 0x7fff_ffff_ffff_ffff == 0 && b & 0x7fff_ffff_ffff_ffff
        == 0))
}

/// Equality of two reported values: the same variant with equal payloads,
/// floating-point payloads compared as floating-point numbers.
pub open spec fn visit_eq(a: Visit, b: Visit) -> bool {
    match (a, b) {
        (Visit::F32(x), Visit::F32(y)) => f32_bits_eq(x, y),
        (Visit::F64(x), Visit::F64(y)) => f64_bits_eq(x, y),
        _ => a == b,
    }
}

impl PartialEq for Visit {
    fn eq(&self, other: &Visit) -> (r: bool) {
        match (self, other) {
            (Visit::Bool(a), Visit::Bool(b)) => *a == *b,
            (Visit::I8(a), Visit::I8(b)) => *a == *b,
            (Visit::I16(a), Visit::I16(b)) => *a == *b,
            (Visit::I32(a), Visit::I32(b)) => *a == *b,
            (Visit::I64(a), Visit::I64(b)) => *a == *b,
            (Visit::I128(a), Visit::I128(b)) => *a == *b,
            (Visit::U8(a), Visit::U8(b)) => *a == *b,
            (Visit::U16(a), Visit::U16(b)) => *a == *b,
            (Visit::U32(a), Visit::U32(b)) => *a == *b,
            (Visit::U64(a), Visit::U64(b)) => *a == *b,
            (Visit::U128(a), Visit::U128(b)) => *a == *b,
            (Visit::F32(a), Visit::F32(b)) => f32_bits_equal(*a, *b),
            (Visit::F64(a), Visit::F64(b)) => f64_bits_equal(*a, *b),
            (Visit::Char(a), Visit::Char(b)) => *a == *b,
            (Visit::SomeValue, Visit::SomeValue) => true,
            (Visit::NoneValue, Visit::NoneValue) => true,
            (Visit::Unit, Visit::Unit) => true,
            (Visit::Sequence, Visit::Sequence) => true,
            (Visit::Mapping, Visit::Mapping) => true,
            (Visit::NewtypeStruct, Visit::NewtypeStruct) => true,
            (Visit::Enum, Visit::Enum) => true,
            (Visit::Str, Visit::Str) => true,
            (Visit::Bytes, Visit::Bytes) => true,
            _ => false,
        }
    }
}

impl PartialEqSpecImpl for Visit {
    open spec fn obeys_eq_spec() -> bool {
        true
    }

    open spec fn eq_spec(&self, other: &Visit) -> bool {
        visit_eq(*self, *other)
    }
}

} // verus!
