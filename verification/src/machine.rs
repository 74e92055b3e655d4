//! The executor's state machine: the shared state, the handles that a
//! `Run` implementation holds (`Instructor`, `SeqInstructor`, `Step`), and
//! the transitions that the serde bridge makes on the deserializer's behalf.
//!
//! Every transition is a function from the current state (and event) to the
//! next state (and action); the surrounding program polls the futures and
//! calls serde in between.
use vstd::prelude::*;

use crate::inspect::{Inspect, InspectView};
use crate::request::{Deserialize, DeserializeView};
use crate::visit::Visit;

verus! {

/// Internal operations not otherwise exposed in `Visit`/`Deserialize`.
#[derive(Copy, Clone, Debug)]
pub enum InternalOp {
    /// Ask for a size hint.
    SizeHintReq,
    /// Resulting size hint.
    SizeHintRes(Option<usize>),
}

/// Borrowed or owned data handed over by serde.
#[derive(Debug)]
pub(crate) enum Data<'de> {
    /// A string borrowed from the input.
    DeStr(&'de str),
    /// A string that serde handed over by value.
    String(Box<str>),
    /// A copy of a string that serde only lends for the duration of a call.
    Str(Box<str>),
    /// Bytes borrowed from the input.
    DeBytes(&'de [u8]),
    /// Bytes that serde handed over by value.
    ByteBuf(Box<[u8]>),
    /// A copy of bytes that serde only lends for the duration of a call.
    Bytes(Box<[u8]>),
    /// Nothing buffered.
    Empty,
}

/// The content of the executor's buffer.
pub enum DataView {
    DeStr(Seq<char>),
    String(Seq<char>),
    Str(Seq<char>),
    DeBytes(Seq<u8>),
    ByteBuf(Seq<u8>),
    Bytes(Seq<u8>),
    Empty,
}

impl<'de> View for Data<'de> {
    type V = DataView;

    closed spec fn view(&self) -> DataView {
        match self {
            Data::DeStr(s) => DataView::DeStr(s@),
            Data::String(s) => DataView::String(s@),
            Data::Str(s) => DataView::Str(s@),
            Data::DeBytes(b) => DataView::DeBytes(b@),
            Data::ByteBuf(b) => DataView::ByteBuf(b@),
            Data::Bytes(b) => DataView::Bytes(b@),
            Data::Empty => DataView::Empty,
        }
    }
}

/// Internal state tracked by the executor and the serde bridge.
#[derive(Debug)]
pub struct State<'de> {
    /// Internal operations/expectations not tracked by the public `Visit`
    /// and `Deserialize` steps.
    pub(crate) internal_op: Option<InternalOp>,
    pub(crate) visit: Option<Visit>,
    pub(crate) deserialize: Option<Deserialize>,
    pub(crate) depth: usize,
    pub(crate) expected_depth: usize,
    pub(crate) data: Data<'de>,
}

/// The executor's state as plain values.
pub struct StateView {
    pub internal_op: Option<InternalOp>,
    pub visit: Option<Visit>,
    pub deserialize: Option<DeserializeView>,
    pub depth: usize,
    pub expected_depth: usize,
    pub data: DataView,
}

/// The view of a pending request.
pub open spec fn request_view(d: Option<Deserialize>) -> Option<DeserializeView> {
    match d {
        Some(d) => Some(d@),
        None => None,
    }
}

impl<'de> View for State<'de> {
    type V = StateView;

    closed spec fn view(&self) -> StateView {
        StateView {
            internal_op: self.internal_op,
            visit: self.visit,
            deserialize: request_view(self.deserialize),
            depth: self.depth,
            expected_depth: self.expected_depth,
            data: self.data@,
        }
    }
}

/// The state in which the executor starts: nothing asked, nothing visited,
/// at depth zero.
pub open spec fn initial_state() -> StateView {
    StateView {
        internal_op: None,
        visit: None,
        deserialize: None,
        depth: 0,
        expected_depth: 0,
        data: DataView::Empty,
    }
}

/// Whether `d` may be asked for in state `s`: nothing is asked yet, or the
/// same thing is.
pub open spec fn accepts(s: StateView, d: DeserializeView) -> bool {
    match s.deserialize {
        Some(c) => c == d,
        None => true,
    }
}

/// The state after `d` was asked for.
pub open spec fn with_request(s: StateView, d: DeserializeView) -> StateView {
    StateView { deserialize: Some(d), ..s }
}

/// The state after a pending ask at `depth` was polled.
pub open spec fn polled(s: StateView, depth: usize) -> StateView {
    StateView { expected_depth: depth, ..s }
}

/// Whether the bridge may hand the pending request to the deserializer:
/// no internal operation is pending and the ask was polled at the current
/// depth.
pub open spec fn can_begin(s: StateView) -> bool {
    &&& s.internal_op is None
    &&& s.depth == s.expected_depth
    &&& s.depth < usize::MAX
}

/// The state after the bridge took the pending request: one level deeper,
/// with nothing asked.
pub open spec fn begun(s: StateView) -> StateView {
    StateView { depth: (s.depth + 1) as usize, deserialize: None, ..s }
}

/// The state after serde reported `visit` together with `data`.
pub open spec fn visited(s: StateView, visit: Visit, data: DataView) -> StateView {
    StateView { visit: Some(visit), data, ..s }
}

/// What a string inspection shows of buffer `d` to a step that is
/// (or is not) `cloned`; `None` where the buffer holds no string.
pub open spec fn str_inspection(d: DataView, cloned: bool) -> Option<InspectView<Seq<char>>> {
    match d {
        DataView::DeStr(s) => Some(InspectView::Borrowed(s)),
        DataView::String(s) => if cloned {
            Some(InspectView::Buffered(s))
        } else {
            Some(InspectView::Owned(s))
        },
        DataView::Str(s) => Some(InspectView::Buffered(s)),
        _ => None,
    }
}

/// The buffer after a string inspection: an owned string handed to a step
/// that is the only handle leaves the buffer empty.
pub open spec fn after_str_inspection(d: DataView, cloned: bool) -> DataView {
    match d {
        DataView::String(_) => if cloned {
            d
        } else {
            DataView::Empty
        },
        _ => d,
    }
}

/// What a byte inspection shows of buffer `d`; `None` where it holds no bytes.
pub open spec fn bytes_inspection(d: DataView, cloned: bool) -> Option<InspectView<Seq<u8>>> {
    match d {
        DataView::DeBytes(b) => Some(InspectView::Borrowed(b)),
        DataView::ByteBuf(b) => if cloned {
            Some(InspectView::Buffered(b))
        } else {
            Some(InspectView::Owned(b))
        },
        DataView::Bytes(b) => Some(InspectView::Buffered(b)),
        _ => None,
    }
}

/// The buffer after a byte inspection.
pub open spec fn after_bytes_inspection(d: DataView, cloned: bool) -> DataView {
    match d {
        DataView::ByteBuf(_) => if cloned {
            d
        } else {
            DataView::Empty
        },
        _ => d,
    }
}

/// Whether a reported string is in the buffer.
pub open spec fn str_ready(s: StateView) -> bool {
    s.visit == Some(Visit::Str) ==> str_inspection(s.data, false) is Some
}

/// Whether reported bytes are in the buffer.
pub open spec fn bytes_ready(s: StateView) -> bool {
    s.visit == Some(Visit::Bytes) ==> bytes_inspection(s.data, false) is Some
}

/// `<Box<str> as From<&str>>::from`: a new box holding a copy of the
/// characters of `s`.
#[verifier::external_body]
fn box_str_from(s: &str) -> (r: Box<str>)
    ensures
        r@ == s@,
{
    Box::from(s)
}

/// `String::into_boxed_str`: the same characters, in a box.
#[verifier::external_body]
fn into_boxed_str(s: String) -> (r: Box<str>)
    ensures
        r@ == s@,
{
    s.into_boxed_str()
}

/// Errors that the bridge reports to the deserializer.
#[derive(Copy, Clone, Debug, PartialEq, Eq, Structural)]
pub enum BridgeError {
    /// The run polled a future that did not ask for anything.
    AwaitingIncorrectFuture,
}

impl BridgeError {
    /// The message that goes with the error.
    pub fn message(&self) -> (r: &'static str)
        ensures
            r@ == "awaiting on incorrect future"@,
    {
        match self {
            BridgeError::AwaitingIncorrectFuture => "awaiting on incorrect future",
        }
    }
}

impl<'de> State<'de> {
    /// The state in which the executor starts.
    pub fn new() -> (r: State<'de>)
        ensures
            r@ == initial_state(),
            r@.internal_op is None,
            r@.visit is None,
            r@.deserialize is None,
            r@.depth == 0,
            r@.expected_depth == 0,
            r@.data == DataView::Empty,
    {
        let r = State {
            internal_op: None,
            visit: None,
            deserialize: None,
            depth: 0,
            expected_depth: 0,
            data: Data::Empty,
        };
        assert(r.data@ == DataView::Empty);
        r
    }

    /// How deep the deserializer currently is.
    pub fn depth(&self) -> (r: usize)
        ensures
            r == self@.depth,
    {
        self.depth
    }

    /// The depth at which the last pending ask was polled.
    pub fn expected_depth(&self) -> (r: usize)
        ensures
            r == self@.expected_depth,
    {
        self.expected_depth
    }

    /// The pending internal operation, if any.
    pub fn internal_op(&self) -> (r: Option<InternalOp>)
        ensures
            r == self@.internal_op,
    {
        self.internal_op
    }

    /// What serde last reported, if anything.
    pub fn visit(&self) -> (r: Option<Visit>)
        ensures
            r == self@.visit,
    {
        self.visit
    }

    /// Whether a reported string is in the buffer, so that a step may
    /// inspect it.
    pub fn is_str_ready(&self) -> (r: bool)
        ensures
            r == str_ready(self@),
            self@.visit != Some(Visit::Str) ==> r,
            self@.visit == Some(Visit::Str) ==> (r <==> (self@.data is DeStr || self@.data is String
                || self@.data is Str)),
    {
        match self.visit {
            Some(Visit::Str) => match &self.data {
                Data::DeStr(_) => true,
                Data::String(_) => true,
                Data::Str(_) => true,
                _ => false,
            },
            _ => true,
        }
    }

    /// Whether reported bytes are in the buffer, so that a step may inspect
    /// them.
    pub fn is_bytes_ready(&self) -> (r: bool)
        ensures
            r == bytes_ready(self@),
            self@.visit != Some(Visit::Bytes) ==> r,
            self@.visit == Some(Visit::Bytes) ==> (r <==> (self@.data is DeBytes || self@.data
                is ByteBuf || self@.data is Bytes)),
    {
        match self.visit {
            Some(Visit::Bytes) => match &self.data {
                Data::DeBytes(_) => true,
                Data::ByteBuf(_) => true,
                Data::Bytes(_) => true,
                _ => false,
            },
            _ => true,
        }
    }

    /// Takes the pending request so that the bridge can hand it to the
    /// deserializer, one level deeper; without one the bridge reports that
    /// the run awaited on an incorrect future.
    pub fn begin_deserialize(&mut self) -> (r: Result<Deserialize, BridgeError>)
        requires
            can_begin(old(self)@),
        ensures
            final(self)@ == begun(old(self)@),
            final(self)@.depth == old(self)@.depth + 1,
            final(self)@.deserialize is None,
            final(self)@.visit == old(self)@.visit,
            final(self)@.data == old(self)@.data,
            final(self)@.expected_depth == old(self)@.expected_depth,
            r is Ok <==> old(self)@.deserialize is Some,
            r matches Ok(d) ==> old(self)@.deserialize == Some(d@),
            r matches Err(e) ==> e == BridgeError::AwaitingIncorrectFuture,
    {
        self.internal_op = None;
        self.depth = self.depth + 1;
        let d = self.deserialize;
        self.deserialize = None;
        match d {
            Some(d) => Ok(d),
            None => Err(BridgeError::AwaitingIncorrectFuture),
        }
    }

    /// Serde lent a string for the duration of a call: a copy of it is
    /// buffered, and a string is reported.
    pub fn visit_str(&mut self, v: &str)
        ensures
            final(self)@ == visited(old(self)@, Visit::Str, DataView::Str(v@)),
            final(self)@.data == DataView::Str(v@),
            final(self)@.visit == Some(Visit::Str),
            final(self)@.depth == old(self)@.depth,
            final(self)@.deserialize == old(self)@.deserialize,
            final(self)@.expected_depth == old(self)@.expected_depth,
            final(self)@.internal_op == old(self)@.internal_op,
    {
        let b = box_str_from(v);
        self.data = Data::Str(b);
        self.visit = Some(Visit::Str);
    }

    /// Serde handed over a string borrowed from the input.
    pub fn visit_borrowed_str(&mut self, v: &'de str)
        ensures
            final(self)@ == visited(old(self)@, Visit::Str, DataView::DeStr(v@)),
            final(self)@.data == DataView::DeStr(v@),
            final(self)@.visit == Some(Visit::Str),
            final(self)@.depth == old(self)@.depth,
            final(self)@.deserialize == old(self)@.deserialize,
            final(self)@.expected_depth == old(self)@.expected_depth,
            final(self)@.internal_op == old(self)@.internal_op,
    {
        self.data = Data::DeStr(v);
        self.visit = Some(Visit::Str);
    }

    /// Serde handed over a string by value.
    pub fn visit_string(&mut self, v: String)
        ensures
            final(self)@ == visited(old(self)@, Visit::Str, DataView::String(v@)),
            final(self)@.data == DataView::String(v@),
            final(self)@.visit == Some(Visit::Str),
            final(self)@.depth == old(self)@.depth,
            final(self)@.deserialize == old(self)@.deserialize,
            final(self)@.expected_depth == old(self)@.expected_depth,
            final(self)@.internal_op == old(self)@.internal_op,
    {
        let b = into_boxed_str(v);
        self.data = Data::String(b);
        self.visit = Some(Visit::Str);
    }

    /// Serde reported a sequence.
    pub fn visit_seq(&mut self)
        ensures
            final(self)@ == (StateView { visit: Some(Visit::Sequence), ..old(self)@ }),
    {
        self.visit = Some(Visit::Sequence);
    }

    /// Drops the buffer once the call that lent it returns.
    pub fn release_buffer(&mut self)
        ensures
            final(self)@ == (StateView { data: DataView::Empty, ..old(self)@ }),
    {
        self.data = Data::Empty;
    }
}

/// The view shared by the handles: whether several copies of the handle
/// exist, and the depth at which it is valid.
pub struct HandleView {
    pub cloned: bool,
    pub depth: usize,
}

/// Allows passing instructions to the executor.
#[derive(Debug)]
pub struct Instructor {
    /// Whether strings and byte buffers must be lent rather than handed over.
    cloned: bool,
    depth: usize,
}

/// Allows passing instructions to the executor to iterate a sequence.
pub struct SeqInstructor {
    /// Whether strings and byte buffers must be lent rather than handed over.
    cloned: bool,
    depth: usize,
}

/// An accepted ask, waiting for serde to report a value.
pub struct Ask {
    cloned: bool,
    depth: usize,
}

/// Allows retrieving values from the executor.
#[derive(Debug)]
pub struct Step {
    /// Whether strings and byte buffers must be lent rather than handed over.
    cloned: bool,
    depth: usize,
}

impl View for Instructor {
    type V = HandleView;

    closed spec fn view(&self) -> HandleView {
        HandleView { cloned: self.cloned, depth: self.depth }
    }
}

impl View for SeqInstructor {
    type V = HandleView;

    closed spec fn view(&self) -> HandleView {
        HandleView { cloned: self.cloned, depth: self.depth }
    }
}

impl View for Ask {
    type V = HandleView;

    closed spec fn view(&self) -> HandleView {
        HandleView { cloned: self.cloned, depth: self.depth }
    }
}

impl View for Step {
    type V = HandleView;

    closed spec fn view(&self) -> HandleView {
        HandleView { cloned: self.cloned, depth: self.depth }
    }
}

impl Instructor {
    /// The instructor that a run starts with.
    pub(crate) fn root() -> (r: Instructor)
        ensures
            r@ == (HandleView { cloned: false, depth: 0 }),
    {
        Instructor { cloned: false, depth: 0 }
    }

    /// The depth at which this instructor may ask.
    pub fn depth(&self) -> (r: usize)
        ensures
            r == self@.depth,
    {
        self.depth
    }

    /// Marks this `Instructor` as cloned and returns a clone.
    pub fn cloned(&mut self) -> (r: Self)
        ensures
            final(self)@ == (HandleView { cloned: true, depth: old(self)@.depth }),
            r@ == final(self)@,
    {
        self.cloned = true;
        Instructor { cloned: self.cloned, depth: self.depth }
    }

    /// Asks for a type from this instructor. A different type than the one
    /// already asked for is refused: the instructor comes back together with
    /// what was asked before.
    pub fn ask<'de>(self, state: &mut State<'de>, deserialize: Deserialize) -> (r: Result<
        Ask,
        (Instructor, Deserialize),
    >)
        requires
            old(state)@.depth == self@.depth,
        ensures
            r is Ok <==> accepts(old(state)@, deserialize@),
            r is Ok <==> (old(state)@.deserialize is None || old(state)@.deserialize == Some(
                deserialize@,
            )),
            r is Ok ==> final(state)@.deserialize == Some(deserialize@),
            final(state)@.depth == old(state)@.depth,
            final(state)@.visit == old(state)@.visit,
            final(state)@.data == old(state)@.data,
            r matches Ok(a) ==> a@ == self@ && final(state)@ == with_request(
                old(state)@,
                deserialize@,
            ),
            r matches Err((i, c)) ==> i@ == self@ && old(state)@.deserialize == Some(c@)
                && final(state)@ == old(state)@,
    {
        let current = state.deserialize;
        match current {
            Some(c) => {
                if !c.same_as(&deserialize) {
                    return Err((self, c));
                }
            },
            None => {},
        }
        state.deserialize = Some(deserialize);
        Ok(Ask { cloned: self.cloned, depth: self.depth })
    }
}

impl Ask {
    /// The depth at which the ask was made.
    pub fn depth(&self) -> (r: usize)
        ensures
            r == self@.depth,
    {
        self.depth
    }

    /// Polls the ask: the bridge is told at which depth it was polled, and
    /// once serde reported a value, the step that handles it is ready one
    /// level deeper.
    pub fn poll<'de>(&self, state: &mut State<'de>) -> (r: Option<Step>)
        requires
            old(state)@.visit is Some ==> self@.depth < usize::MAX,
        ensures
            final(state)@ == polled(old(state)@, self@.depth),
            final(state)@.expected_depth == self@.depth,
            final(state)@.depth == old(state)@.depth,
            final(state)@.deserialize == old(state)@.deserialize,
            final(state)@.visit == old(state)@.visit,
            final(state)@.data == old(state)@.data,
            r is Some <==> old(state)@.visit is Some,
            r matches Some(s) ==> s@ == (HandleView {
                cloned: self@.cloned,
                depth: (self@.depth + 1) as usize,
            }),
    {
        state.expected_depth = self.depth;
        match state.visit {
            None => None,
            Some(_) => Some(Step { cloned: self.cloned, depth: self.depth + 1 }),
        }
    }
}

impl SeqInstructor {
    /// The depth at which this instructor may ask.
    pub fn depth(&self) -> (r: usize)
        ensures
            r == self@.depth,
    {
        self.depth
    }

    /// Marks this `SeqInstructor` as cloned and returns a clone.
    pub fn cloned(&mut self) -> (r: Self)
        ensures
            final(self)@ == (HandleView { cloned: true, depth: old(self)@.depth }),
            r@ == final(self)@,
    {
        self.cloned = true;
        SeqInstructor { cloned: self.cloned, depth: self.depth }
    }

    /// Asks for a type from this instructor. A different type than the one
    /// already asked for is refused with what was asked before.
    pub fn ask<'de>(&mut self, state: &mut State<'de>, deserialize: Deserialize) -> (r: Result<
        Ask,
        Option<Deserialize>,
    >)
        requires
            old(state)@.depth == old(self)@.depth,
            old(state)@.internal_op is None,
        ensures
            final(self)@ == old(self)@,
            r is Ok <==> accepts(old(state)@, deserialize@),
            r is Ok <==> (old(state)@.deserialize is None || old(state)@.deserialize == Some(
                deserialize@,
            )),
            r is Ok ==> final(state)@.deserialize == Some(deserialize@),
            final(state)@.depth == old(state)@.depth,
            final(state)@.visit == old(state)@.visit,
            final(state)@.data == old(state)@.data,
            r matches Ok(a) ==> a@ == old(self)@ && final(state)@ == with_request(
                old(state)@,
                deserialize@,
            ),
            r matches Err(c) ==> c is Some && old(state)@.deserialize == request_view(c)
                && final(state)@ == old(state)@,
    {
        let current = state.deserialize;
        match current {
            Some(c) => {
                if !c.same_as(&deserialize) {
                    return Err(Some(c));
                }
            },
            None => {},
        }
        state.deserialize = Some(deserialize);
        Ok(Ask { cloned: self.cloned, depth: self.depth })
    }
}

impl Step {
    /// The depth at which this step is valid.
    pub fn depth(&self) -> (r: usize)
        ensures
            r == self@.depth,
    {
        self.depth
    }

    /// Returns the type/value the executor expects you to handle.
    pub fn kind<'de>(&self, state: &State<'de>) -> (r: Visit)
        requires
            state@.depth == self@.depth,
            state@.visit is Some,
        ensures
            state@.visit == Some(r),
    {
        state.visit.unwrap()
    }

    /// Marks this `Step` as cloned and returns a clone.
    pub fn cloned(&mut self) -> (r: Self)
        ensures
            final(self)@ == (HandleView { cloned: true, depth: old(self)@.depth }),
            r@ == final(self)@,
    {
        self.cloned = true;
        Step { cloned: self.cloned, depth: self.depth }
    }

    /// Attempts to inspect a string: `f` sees the string that serde reported,
    /// borrowed from the input, lent from the buffer, or handed over where
    /// this step is the only handle and serde handed the string over.
    pub fn inspect_string<'de, F, R>(self, state: &mut State<'de>, f: F) -> (r: Option<R>) where
        F: for <'a>FnOnce(Inspect<'a, 'de, str>) -> R,

        requires
            old(state)@.depth == self@.depth,
            old(state)@.visit is Some,
            str_ready(old(state)@),
            forall|i: Inspect<'de, 'de, str>| call_requires(f, (i,)),
        ensures
            r is Some <==> old(state)@.visit == Some(Visit::Str),
            old(state)@.visit == Some(Visit::Str) ==> {
                &&& final(state)@ == (StateView {
                    data: after_str_inspection(old(state)@.data, self@.cloned),
                    ..old(state)@
                })
                &&& exists|i: Inspect<'de, 'de, str>|
                    Some(i@) == str_inspection(old(state)@.data, self@.cloned) && call_ensures(
                        f,
                        (i,),
                        r.unwrap(),
                    )
            },
            old(state)@.visit != Some(Visit::Str) ==> final(state)@ == old(state)@,
    {
        let kind = self.kind(state);
        match kind {
            Visit::Str => {},
            _ => {
                return None;
            },
        }
        let hand_over = match &state.data {
            Data::String(_) => !self.cloned,
            _ => false,
        };
        if hand_over {
            let mut taken = Data::Empty;
            core::mem::swap(&mut taken, &mut state.data);
            assert(state.data@ == DataView::Empty);
            match taken {
                Data::String(s) => {
                    let i = Inspect::Owned(s);
                    let ghost gi = i;
                    let v = f(i);
                    assert(call_ensures(f, (gi,), v));
                    assert(Some(gi@) == str_inspection(old(state)@.data, self@.cloned));
                    Some(v)
                },
                _ => None,
            }
        } else {
            match &state.data {
                Data::DeStr(s) => {
                    let i = Inspect::Borrowed(*s);
                    let ghost gi = i;
                    let v = f(i);
                    assert(call_ensures(f, (gi,), v));
                    assert(Some(gi@) == str_inspection(old(state)@.data, self@.cloned));
                    Some(v)
                },
                Data::String(s) => {
                    let i = Inspect::Buffered(&**s);
                    let ghost gi = i;
                    let v = f(i);
                    assert(call_ensures(f, (gi,), v));
                    assert(Some(gi@) == str_inspection(old(state)@.data, self@.cloned));
                    Some(v)
                },
                Data::Str(s) => {
                    let i = Inspect::Buffered(&**s);
                    let ghost gi = i;
                    let v = f(i);
                    assert(call_ensures(f, (gi,), v));
                    assert(Some(gi@) == str_inspection(old(state)@.data, self@.cloned));
                    Some(v)
                },
                _ => None,
            }
        }
    }

    /// Attempts to inspect bytes: `f` sees the bytes that serde reported,
    /// borrowed from the input, lent from the buffer, or handed over where
    /// this step is the only handle and serde handed the bytes over.
    pub fn inspect_bytes<'de, F, R>(self, state: &mut State<'de>, f: F) -> (r: Option<R>) where
        F: for <'a>FnOnce(Inspect<'a, 'de, [u8]>) -> R,

        requires
            old(state)@.depth == self@.depth,
            old(state)@.visit is Some,
            bytes_ready(old(state)@),
            forall|i: Inspect<'de, 'de, [u8]>| call_requires(f, (i,)),
        ensures
            r is Some <==> old(state)@.visit == Some(Visit::Bytes),
            old(state)@.visit == Some(Visit::Bytes) ==> {
                &&& final(state)@ == (StateView {
                    data: after_bytes_inspection(old(state)@.data, self@.cloned),
                    ..old(state)@
                })
                &&& exists|i: Inspect<'de, 'de, [u8]>|
                    Some(i@) == bytes_inspection(old(state)@.data, self@.cloned) && call_ensures(
                        f,
                        (i,),
                        r.unwrap(),
                    )
            },
            old(state)@.visit != Some(Visit::Bytes) ==> final(state)@ == old(state)@,
    {
        let kind = self.kind(state);
        match kind {
            Visit::Bytes => {},
            _ => {
                return None;
            },
        }
        let hand_over = match &state.data {
            Data::ByteBuf(_) => !self.cloned,
            _ => false,
        };
        if hand_over {
            let mut taken = Data::Empty;
            core::mem::swap(&mut taken, &mut state.data);
            assert(state.data@ == DataView::Empty);
            match taken {
                Data::ByteBuf(b) => {
                    let i = Inspect::Owned(b);
                    let ghost gi = i;
                    let v = f(i);
                    assert(call_ensures(f, (gi,), v));
                    assert(Some(gi@) == bytes_inspection(old(state)@.data, self@.cloned));
                    Some(v)
                },
                _ => None,
            }
        } else {
            match &state.data {
                Data::DeBytes(b) => {
                    let i = Inspect::Borrowed(*b);
                    let ghost gi = i;
                    let v = f(i);
                    assert(call_ensures(f, (gi,), v));
                    assert(Some(gi@) == bytes_inspection(old(state)@.data, self@.cloned));
                    Some(v)
                },
                Data::ByteBuf(b) => {
                    let i = Inspect::Buffered(&**b);
                    let ghost gi = i;
                    let v = f(i);
                    assert(call_ensures(f, (gi,), v));
                    assert(Some(gi@) == bytes_inspection(old(state)@.data, self@.cloned));
                    Some(v)
                },
                Data::Bytes(b) => {
                    let i = Inspect::Buffered(&**b);
                    let ghost gi = i;
                    let v = f(i);
                    assert(call_ensures(f, (gi,), v));
                    assert(Some(gi@) == bytes_inspection(old(state)@.data, self@.cloned));
                    Some(v)
                },
                _ => None,
            }
        }
    }

    /// Attempts to inspect a sequence: where serde reported one, the
    /// instructor that iterates it, at this step's depth and cloning.
    pub fn inspect_seq<'de>(self, state: &State<'de>) -> (r: Option<SeqInstructor>)
        requires
            state@.depth == self@.depth,
            state@.visit is Some,
        ensures
            r is Some <==> state@.visit == Some(Visit::Sequence),
            r matches Some(si) ==> si@ == self@,
    {
        match self.kind(state) {
            Visit::Sequence => Some(SeqInstructor { cloned: self.cloned, depth: self.depth }),
            _ => None,
        }
    }
}

} // verus!
