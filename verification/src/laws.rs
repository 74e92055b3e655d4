//! Properties of the protocol that span several transitions.
use vstd::prelude::*;

use crate::inspect::InspectView;
use crate::machine::{
    accepts, after_bytes_inspection, after_str_inspection, begun, bytes_inspection, bytes_ready,
    can_begin,
    initial_state, polled, str_inspection, str_ready, visited, with_request, DataView,
    HandleView, StateView,
};
use crate::request::{names_view, Deserialize, DeserializeView};
use crate::visit::{f32_bits_eq, f64_bits_eq, visit_eq, Visit};

verus! {

/// Once a type is asked for, asking again for the same type is accepted,
/// and asking for any other type is refused, until the bridge takes the
/// request.
pub proof fn ask_is_consistent(s: StateView, d: DeserializeView, e: DeserializeView)
    ensures
        accepts(with_request(s, d), e) <==> e == d,
{
}

/// Once the bridge took the request, nothing is pending: any type may be
/// asked for, and taking again without a new ask finds nothing (the bridge
/// then reports that the run awaited on an incorrect future).
pub proof fn begin_clears_request(s: StateView, e: DeserializeView)
    requires
        can_begin(s),
    ensures
        begun(s).deserialize is None,
        accepts(begun(s), e),
{
}

/// An accepted ask from a handle at the state's depth, polled once, passes
/// the bridge's checks; the bridge then hands exactly the asked type to the
/// deserializer and ends one level deeper, which is the depth of the step
/// that the ask yields.
pub proof fn ask_poll_begin_agree(s: StateView, h: HandleView, d: DeserializeView)
    requires
        s.depth == h.depth,
        s.internal_op is None,
        s.depth < usize::MAX,
        accepts(s, d),
    ensures
        can_begin(polled(with_request(s, d), h.depth)),
        polled(with_request(s, d), h.depth).deserialize == Some(d),
        begun(polled(with_request(s, d), h.depth)).depth == h.depth + 1,
        begun(polled(with_request(s, d), h.depth)).deserialize is None,
{
}

/// A cloned step never takes the buffer: inspecting again shows the same
/// string or bytes, and the buffer stays as it was.
pub proof fn cloned_inspection_keeps_buffer(d: DataView)
    ensures
        after_str_inspection(d, true) == d,
        str_inspection(after_str_inspection(d, true), true) == str_inspection(d, true),
        after_bytes_inspection(d, true) == d,
        bytes_inspection(after_bytes_inspection(d, true), true) == bytes_inspection(d, true),
{
}

/// A string or byte buffer that serde handed over by value goes, once, to a
/// step that is the only handle: it is handed over and the buffer is left
/// empty, with nothing more to inspect.
pub proof fn owned_buffer_handed_over_once(s: Seq<char>, b: Seq<u8>, c: bool)
    ensures
        str_inspection(DataView::String(s), false) == Some(InspectView::Owned(s)),
        after_str_inspection(DataView::String(s), false) == DataView::Empty,
        str_inspection(DataView::Empty, c) is None,
        bytes_inspection(DataView::ByteBuf(b), false) == Some(InspectView::Owned(b)),
        after_bytes_inspection(DataView::ByteBuf(b), false) == DataView::Empty,
        bytes_inspection(DataView::Empty, c) is None,
{
}

/// Each way in which serde reports a string leaves the state ready for a
/// string inspection, with the access that the way allows: a string
/// borrowed from the input is lent for the input's lifetime, a string lent
/// for a call is lent from the buffer, and a string handed over by value is
/// handed on unless the step was cloned.
pub proof fn reported_string_is_ready(s: StateView, v: Seq<char>, c: bool)
    ensures
        str_ready(visited(s, Visit::Str, DataView::DeStr(v))),
        str_ready(visited(s, Visit::Str, DataView::Str(v))),
        str_ready(visited(s, Visit::Str, DataView::String(v))),
        str_inspection(DataView::DeStr(v), c) == Some(InspectView::Borrowed(v)),
        str_inspection(DataView::Str(v), c) == Some(InspectView::Buffered(v)),
        str_inspection(DataView::String(v), c) == (if c {
            Some(InspectView::Buffered(v))
        } else {
            Some(InspectView::Owned(v))
        }),
{
}

/// One round of a run, from the executor's initial state: the root
/// instructor's ask, polled before serde answered, lets the bridge hand the
/// asked type to the deserializer; once serde reported a string borrowed
/// from the input, the ask polled again yields a step at the deserializer's
/// depth that sees a string, and inspecting it shows exactly that string.
pub proof fn reported_string_reaches_step(d: DeserializeView, v: Seq<char>, c: bool)
    ensures
        ({
            let asked = polled(with_request(initial_state(), d), 0);
            let taken = begun(asked);
            let answered = polled(visited(taken, Visit::Str, DataView::DeStr(v)), 0);
            &&& accepts(initial_state(), d)
            &&& can_begin(asked)
            &&& asked.deserialize == Some(d)
            &&& answered.depth == 1
            &&& answered.visit == Some(Visit::Str)
            &&& str_ready(answered)
            &&& str_inspection(answered.data, c) == Some(InspectView::Borrowed(v))
        }),
{
}

/// One round of a run at any depth: an ask from a handle at the state's
/// depth `n`, made before anything was reported and polled while serde has
/// not answered, passes the bridge; whatever serde then reports (a value
/// kind together with what it buffers), the ask polled again yields a step
/// at depth `n + 1`, which is the state's depth, and the step sees exactly
/// the reported kind.
pub proof fn round_reaches_step(
    s: StateView,
    h: HandleView,
    d: DeserializeView,
    k: Visit,
    data: DataView,
)
    requires
        s.depth == h.depth,
        s.internal_op is None,
        s.visit is None,
        s.depth < usize::MAX,
        accepts(s, d),
    ensures
        ({
            let asked = polled(with_request(s, d), h.depth);
            let answered = polled(visited(begun(asked), k, data), h.depth);
            &&& asked.visit is None
            &&& can_begin(asked)
            &&& asked.deserialize == Some(d)
            &&& answered.depth == h.depth + 1
            &&& answered.visit == Some(k)
            &&& answered.internal_op is None
        }),
{
}

/// No internal operation is ever pending in a run: the initial state has
/// none, and no transition of the protocol introduces one.
pub proof fn internal_op_stays_clear(
    s: StateView,
    d: DeserializeView,
    n: usize,
    k: Visit,
    data: DataView,
)
    requires
        s.internal_op is None,
    ensures
        initial_state().internal_op is None,
        with_request(s, d).internal_op is None,
        polled(s, n).internal_op is None,
        begun(s).internal_op is None,
        visited(s, k, data).internal_op is None,
        (StateView { data: DataView::Empty, ..s }).internal_op is None,
        (StateView { visit: Some(Visit::Sequence), ..s }).internal_op is None,
{
}

/// Reporting a value records exactly what serde handed over, whole: the
/// reported kind and the buffer as given, with every other part of the
/// state untouched. In particular a string lent for a call is buffered in
/// full, and inspecting it lends exactly that string, at every length.
pub proof fn report_is_recorded_whole(
    s: StateView,
    k: Visit,
    data: DataView,
    v: Seq<char>,
    c: bool,
)
    ensures
        visited(s, k, data).data == data,
        visited(s, k, data).visit == Some(k),
        visited(s, k, data).depth == s.depth,
        visited(s, k, data).expected_depth == s.expected_depth,
        visited(s, k, data).deserialize == s.deserialize,
        visited(s, k, data).internal_op == s.internal_op,
        visited(s, Visit::Str, DataView::Str(v)).data == DataView::Str(v),
        str_inspection(visited(s, Visit::Str, DataView::Str(v)).data, c) == Some(
            InspectView::Buffered(v),
        ),
        str_inspection(visited(s, Visit::Str, DataView::DeStr(v)).data, c) == Some(
            InspectView::Borrowed(v),
        ),
{
}

/// A list of names is seen name by name: as many names, each with exactly
/// its own characters, the first included.
pub proof fn names_are_seen_one_by_one(a: Seq<&str>)
    ensures
        names_view(a).len() == a.len(),
        forall|i: int| 0 <= i < a.len() ==> #[trigger] names_view(a)[i] == a[i]@,
{
}

/// Two struct requests (or two enum requests) of the same name are the same
/// request exactly when their field (variant) lists have the same length and
/// the same characters at every position; a difference in any one name, the
/// first included, makes them different requests, which an ask refuses.
pub proof fn requests_differ_in_any_name(
    name: &'static str,
    a: &'static [&'static str],
    b: &'static [&'static str],
)
    ensures
        (Deserialize::Struct { name, fields: a })@ == (Deserialize::Struct { name, fields: b })@
            <==> (a@.len() == b@.len() && forall|i: int|
            0 <= i < a@.len() ==> #[trigger] a@[i]@ == b@[i]@),
        (Deserialize::Enum { name, variants: a })@ == (Deserialize::Enum { name, variants: b })@
            <==> (a@.len() == b@.len() && forall|i: int|
            0 <= i < a@.len() ==> #[trigger] a@[i]@ == b@[i]@),
{
    assert((a@.len() == b@.len() && forall|i: int| 0 <= i < a@.len() ==> #[trigger] a@[i]@ == b@[i]@)
        ==> names_view(a@) =~= names_view(b@));
    if names_view(a@) == names_view(b@) {
        assert forall|i: int| 0 <= i < a@.len() implies #[trigger] a@[i]@ == b@[i]@ by {
            assert(names_view(a@)[i] == names_view(b@)[i]);
        }
    }
}

/// `f32` values compare as floating-point numbers: a NaN equals nothing,
/// any other value equals itself, the two zeros are equal, equality is
/// symmetric, the sign of a non-zero value matters, and otherwise equal
/// values have equal bit patterns.
pub proof fn f32_compare_as_floats(a: u32, b: u32)
    ensures
        (a & 0x7f80_0000 == 0x7f80_0000 && a & 0x007f_ffff != 0) ==> !f32_bits_eq(a, b),
        !(a & 0x7f80_0000 == 0x7f80_0000 && a & 0x007f_ffff != 0) ==> f32_bits_eq(a, a),
        f32_bits_eq(a, b) == f32_bits_eq(b, a),
        (a & 0x7fff_ffff == 0 && b & 0x7fff_ffff == 0) ==> f32_bits_eq(a, b),
        a & 0x7fff_ffff != 0 ==> !f32_bits_eq(a, a ^ 0x8000_0000),
        f32_bits_eq(a, b) ==> (a == b || (a & 0x7fff_ffff == 0 && b & 0x7fff_ffff == 0)),
{
    assert(a & 0x7fff_ffff != 0 ==> a != a ^ 0x8000_0000 && (a ^ 0x8000_0000) & 0x7fff_ffff
        != 0) by (bit_vector);
    assert((a & 0x7fff_ffff == 0) ==> !(a & 0x7f80_0000 == 0x7f80_0000 && a & 0x007f_ffff != 0))
        by (bit_vector);
    assert((b & 0x7fff_ffff == 0) ==> !(b & 0x7f80_0000 == 0x7f80_0000 && b & 0x007f_ffff != 0))
        by (bit_vector);
}

/// `f64` values compare as floating-point numbers, as `f32` values do.
pub proof fn f64_compare_as_floats(a: u64, b: u64)
    ensures
        (a & 0x7ff0_0000_0000_0000 == 0x7ff0_0000_0000_0000 && a & 0x000f_ffff_ffff_ffff != 0)
            ==> !f64_bits_eq(a, b),
        !(a & 0x7ff0_0000_0000_0000 == 0x7ff0_0000_0000_0000 && a & 0x000f_ffff_ffff_ffff != 0)
            ==> f64_bits_eq(a, a),
        f64_bits_eq(a, b) == f64_bits_eq(b, a),
        (a & 0x7fff_ffff_ffff_ffff == 0 && b & 0x7fff_ffff_ffff_ffff == 0) ==> f64_bits_eq(a, b),
        a & 0x7fff_ffff_ffff_ffff != 0 ==> !f64_bits_eq(a, a ^ 0x8000_0000_0000_0000),
        f64_bits_eq(a, b) ==> (a == b || (a & 0x7fff_ffff_ffff_ffff == 0 && b
            & 0x7fff_ffff_ffff_ffff == 0)),
{
    assert(a & 0x7fff_ffff_ffff_ffff != 0 ==> a != a ^ 0x8000_0000_0000_0000 && (a
        ^ 0x8000_0000_0000_0000) & 0x7fff_ffff_ffff_ffff != 0) by (bit_vector);
    assert((a & 0x7fff_ffff_ffff_ffff == 0) ==> !(a & 0x7ff0_0000_0000_0000
        == 0x7ff0_0000_0000_0000 && a & 0x000f_ffff_ffff_ffff != 0)) by (bit_vector);
    assert((b & 0x7fff_ffff_ffff_ffff == 0) ==> !(b & 0x7ff0_0000_0000_0000
        == 0x7ff0_0000_0000_0000 && b & 0x000f_ffff_ffff_ffff != 0)) by (bit_vector);
}

/// Reported values compare by variant and payload: floating-point payloads
/// as floating-point numbers, every other payload by value, and values of
/// different variants never compare equal.
pub proof fn reported_values_compare_by_payload(x: Visit, y: Visit, a: u32, b: u32, p: u64, q: u64)
    ensures
        visit_eq(Visit::F32(a), Visit::F32(b)) == f32_bits_eq(a, b),
        visit_eq(Visit::F64(p), Visit::F64(q)) == f64_bits_eq(p, q),
        !visit_eq(Visit::F32(a), Visit::F64(p)),
        !(x is F32) && !(x is F64) ==> (visit_eq(x, y) <==> x == y),
{
}

/// A step may always inspect a string unless a string was reported and
/// nothing holds it: a state whose reported value is not a string is ready
/// (the inspection then finds no string), and a reported string is ready
/// exactly when a borrowed, handed-over or lent string is buffered, so
/// that inspecting it shows that string.
pub proof fn string_readiness(s: StateView, c: bool)
    ensures
        s.visit != Some(Visit::Str) ==> str_ready(s),
        s.visit == Some(Visit::Str) ==> (str_ready(s) <==> (s.data is DeStr || s.data is String
            || s.data is Str)),
        str_ready(s) && s.visit == Some(Visit::Str) ==> str_inspection(s.data, c) is Some,
{
}

/// A step may always inspect bytes unless bytes were reported and nothing
/// holds them: a state whose reported value is not bytes is ready (the
/// inspection then finds no bytes), and reported bytes are ready exactly
/// when borrowed, handed-over or lent bytes are buffered.
pub proof fn bytes_readiness(s: StateView, c: bool)
    ensures
        s.visit != Some(Visit::Bytes) ==> bytes_ready(s),
        s.visit == Some(Visit::Bytes) ==> (bytes_ready(s) <==> (s.data is DeBytes || s.data
            is ByteBuf || s.data is Bytes)),
        bytes_ready(s) && s.visit == Some(Visit::Bytes) ==> bytes_inspection(s.data, c) is Some,
{
}

/// A request is seen by everything it says: its variant, its name by its
/// characters, and its size or length; two requests that differ in any of
/// these are different requests, which an ask refuses.
pub proof fn requests_differ_in_anything(
    a: &'static str,
    b: &'static str,
    n: usize,
    m: usize,
    f: &'static [&'static str],
)
    ensures
        (Deserialize::UnitStruct { name: a })@ == (Deserialize::UnitStruct { name: b })@ <==> a@
            == b@,
        (Deserialize::NewtypeStruct { name: a })@ == (Deserialize::NewtypeStruct { name: b })@
            <==> a@ == b@,
        (Deserialize::TupleStruct { name: a, len: n })@ == (Deserialize::TupleStruct {
            name: b,
            len: m,
        })@ <==> (a@ == b@ && n == m),
        (Deserialize::Struct { name: a, fields: f })@ == (Deserialize::Struct { name: b, fields: f })@
            <==> a@ == b@,
        (Deserialize::Enum { name: a, variants: f })@ == (Deserialize::Enum {
            name: b,
            variants: f,
        })@ <==> a@ == b@,
        (Deserialize::Tuple(n))@ == (Deserialize::Tuple(m))@ <==> n == m,
        Deserialize::Str@ != Deserialize::String@,
        Deserialize::Bytes@ != Deserialize::ByteBuf@,
        (Deserialize::UnitStruct { name: a })@ != (Deserialize::NewtypeStruct { name: a })@,
        (Deserialize::Struct { name: a, fields: f })@ != (Deserialize::Enum { name: a, variants: f })@,
{
}

/// Inspecting a string takes it out of the buffer only when it was handed
/// over by value to the only handle: borrowed and lent strings stay
/// buffered, and a buffer holding no string shows no string.
pub proof fn string_inspection_keeps_lent_buffers(v: Seq<char>, w: Seq<u8>, c: bool)
    ensures
        after_str_inspection(DataView::DeStr(v), c) == DataView::DeStr(v),
        after_str_inspection(DataView::Str(v), c) == DataView::Str(v),
        after_str_inspection(DataView::String(v), true) == DataView::String(v),
        str_inspection(DataView::DeBytes(w), c) is None,
        str_inspection(DataView::ByteBuf(w), c) is None,
        str_inspection(DataView::Bytes(w), c) is None,
        after_bytes_inspection(DataView::DeBytes(w), c) == DataView::DeBytes(w),
        after_bytes_inspection(DataView::Bytes(w), c) == DataView::Bytes(w),
        bytes_inspection(DataView::DeBytes(w), c) == Some(InspectView::Borrowed(w)),
        bytes_inspection(DataView::Bytes(w), c) == Some(InspectView::Buffered(w)),
        bytes_inspection(DataView::ByteBuf(w), true) == Some(InspectView::Buffered(w)),
        bytes_inspection(DataView::DeStr(v), c) is None,
{
}

} // verus!
