//! What a caller expects the executor to deserialize next.
use vstd::prelude::*;
use vstd::string::StringSliceAdditionalSpecFns;
use vstd::utf8::encode_utf8_decode_utf8;

verus! {

/// What you expect the executor to do.
#[derive(Copy, Clone, Debug, PartialEq, Eq, Hash)]
pub enum Deserialize {
    Any,
    IgnoredAny,
    Bool,
    I8,
    I16,
    I32,
    I64,
    I128,
    U8,
    U16,
    U32,
    U64,
    U128,
    F32,
    F64,
    Char,
    Option,
    Unit,
    Sequence,
    Mapping,
    Identifier,
    Bytes,
    /// Decays into `Bytes` in type resolution.
    ByteBuf,
    Str,
    /// Decays into `Str` in type resolution.
    String,
    Tuple(usize),
    UnitStruct { name: &'static str },
    TupleStruct { name: &'static str, len: usize },
    NewtypeStruct { name: &'static str },
    Struct { name: &'static str, fields: &'static [&'static str] },
    Enum { name: &'static str, variants: &'static [&'static str] },
}

/// The content of a `Deserialize`: names are taken by their characters, so
/// two requests have the same view exactly when they compare equal.
pub enum DeserializeView {
    Any,
    IgnoredAny,
    Bool,
    I8,
    I16,
    I32,
    I64,
    I128,
    U8,
    U16,
    U32,
    U64,
    U128,
    F32,
    F64,
    Char,
    Option,
    Unit,
    Sequence,
    Mapping,
    Identifier,
    Bytes,
    ByteBuf,
    Str,
    String,
    Tuple(usize),
    UnitStruct { name: Seq<char> },
    TupleStruct { name: Seq<char>, len: usize },
    NewtypeStruct { name: Seq<char> },
    Struct { name: Seq<char>, fields: Seq<Seq<char>> },
    Enum { name: Seq<char>, variants: Seq<Seq<char>> },
}

/// The characters of each name in a list of names.
pub open spec fn names_view(names: Seq<&str>) -> Seq<Seq<char>> {
    names.map_values(|s: &str| s@)
}

impl View for Deserialize {
    type V = DeserializeView;

    open spec fn view(&self) -> DeserializeView {
        match *self {
            Deserialize::Any => DeserializeView::Any,
            Deserialize::IgnoredAny => DeserializeView::IgnoredAny,
            Deserialize::Bool => DeserializeView::Bool,
            Deserialize::I8 => DeserializeView::I8,
            Deserialize::I16 => DeserializeView::I16,
            Deserialize::I32 => DeserializeView::I32,
            Deserialize::I64 => DeserializeView::I64,
            Deserialize::I128 => DeserializeView::I128,
            Deserialize::U8 => DeserializeView::U8,
            Deserialize::U16 => DeserializeView::U16,
            Deserialize::U32 => DeserializeView::U32,
            Deserialize::U64 => DeserializeView::U64,
            Deserialize::U128 => DeserializeView::U128,
            Deserialize::F32 => DeserializeView::F32,
            Deserialize::F64 => DeserializeView::F64,
            Deserialize::Char => DeserializeView::Char,
            Deserialize::Option => DeserializeView::Option,
            Deserialize::Unit => DeserializeView::Unit,
            Deserialize::Sequence => DeserializeView::Sequence,
            Deserialize::Mapping => DeserializeView::Mapping,
            Deserialize::Identifier => DeserializeView::Identifier,
            Deserialize::Bytes => DeserializeView::Bytes,
            Deserialize::ByteBuf => DeserializeView::ByteBuf,
            Deserialize::Str => DeserializeView::Str,
            Deserialize::String => DeserializeView::String,
            Deserialize::Tuple(n) => DeserializeView::Tuple(n),
            Deserialize::UnitStruct { name } => DeserializeView::UnitStruct { name: name@ },
            Deserialize::TupleStruct { name, len } => DeserializeView::TupleStruct {
                name: name@,
                len,
            },
            Deserialize::NewtypeStruct { name } => DeserializeView::NewtypeStruct { name: name@ },
            Deserialize::Struct { name, fields } => DeserializeView::Struct {
                name: name@,
                fields: names_view(fields@),
            },
            Deserialize::Enum { name, variants } => DeserializeView::Enum {
                name: name@,
                variants: names_view(variants@),
            },
        }
    }
}

/// Whether two strings hold the same characters.
pub fn str_eq(a: &str, b: &str) -> (r: bool)
    ensures
        r == (a@ == b@),
{
    let ab = a.as_bytes();
    let bb = b.as_bytes();
    proof {
        encode_utf8_decode_utf8(a@);
        encode_utf8_decode_utf8(b@);
    }
    if ab.len() != bb.len() {
        return false;
    }
    let n = ab.len();
    let mut i: usize = 0;
    while i < n
        invariant
            n == ab@.len(),
            n == bb@.len(),
            ab@ == a.spec_bytes(),
            bb@ == b.spec_bytes(),
            i <= n,
            forall|j: int| 0 <= j < i ==> ab@[j] == bb@[j],
        decreases n - i,
    {
        if ab[i] != bb[i] {
            return false;
        }
        i = i + 1;
    }
    assert(ab@ =~= bb@);
    true
}

/// Whether two lists of names hold the same names in the same order.
pub fn names_eq(a: &[&str], b: &[&str]) -> (r: bool)
    ensures
        r == (names_view(a@) == names_view(b@)),
        r == (a@.len() == b@.len() && forall|i: int| 0 <= i < a@.len() ==> #[trigger] a@[i]@ == b@[i]@),
{
    if a.len() != b.len() {
        assert(names_view(a@).len() != names_view(b@).len());
        return false;
    }
    let n = a.len();
    let mut i: usize = 0;
    while i < n
        invariant
            n == a@.len(),
            n == b@.len(),
            i <= n,
            forall|j: int| 0 <= j < i ==> a@[j]@ == b@[j]@,
        decreases n - i,
    {
        if !str_eq(a[i], b[i]) {
            assert(names_view(a@)[i as int] != names_view(b@)[i as int]);
            return false;
        }
        i = i + 1;
    }
    assert(names_view(a@) =~= names_view(b@));
    true
}

impl Deserialize {
    /// Whether `self` and `other` ask for the same thing: the same variant,
    /// with the same names, lengths and fields.
    pub fn same_as(&self, other: &Deserialize) -> (r: bool)
        ensures
            r == (self@ == other@),
    {
        match (self, other) {
            (Deserialize::Any, Deserialize::Any) => true,
            (Deserialize::IgnoredAny, Deserialize::IgnoredAny) => true,
            (Deserialize::Bool, Deserialize::Bool) => true,
            (Deserialize::I8, Deserialize::I8) => true,
            (Deserialize::I16, Deserialize::I16) => true,
            (Deserialize::I32, Deserialize::I32) => true,
            (Deserialize::I64, Deserialize::I64) => true,
            (Deserialize::I128, Deserialize::I128) => true,
            (Deserialize::U8, Deserialize::U8) => true,
            (Deserialize::U16, Deserialize::U16) => true,
            (Deserialize::U32, Deserialize::U32) => true,
            (Deserialize::U64, Deserialize::U64) => true,
            (Deserialize::U128, Deserialize::U128) => true,
            (Deserialize::F32, Deserialize::F32) => true,
            (Deserialize::F64, Deserialize::F64) => true,
            (Deserialize::Char, Deserialize::Char) => true,
            (Deserialize::Option, Deserialize::Option) => true,
            (Deserialize::Unit, Deserialize::Unit) => true,
            (Deserialize::Sequence, Deserialize::Sequence) => true,
            (Deserialize::Mapping, Deserialize::Mapping) => true,
            (Deserialize::Identifier, Deserialize::Identifier) => true,
            (Deserialize::Bytes, Deserialize::Bytes) => true,
            (Deserialize::ByteBuf, Deserialize::ByteBuf) => true,
            (Deserialize::Str, Deserialize::Str) => true,
            (Deserialize::String, Deserialize::String) => true,
            (Deserialize::Tuple(a), Deserialize::Tuple(b)) => *a == *b,
            (
                Deserialize::UnitStruct { name: a },
                Deserialize::UnitStruct { name: b },
            ) => str_eq(a, b),
            (
                Deserialize::TupleStruct { name: a, len: la },
                Deserialize::TupleStruct { name: b, len: lb },
            ) => *la == *lb && str_eq(a, b),
            (
                Deserialize::NewtypeStruct { name: a },
                Deserialize::NewtypeStruct { name: b },
            ) => str_eq(a, b),
            (
                Deserialize::Struct { name: a, fields: fa },
                Deserialize::Struct { name: b, fields: fb },
            ) => str_eq(a, b) && names_eq(fa, fb),
            (
                Deserialize::Enum { name: a, variants: va },
                Deserialize::Enum { name: b, variants: vb },
            ) => str_eq(a, b) && names_eq(va, vb),
            _ => false,
        }
    }
}

} // verus!
