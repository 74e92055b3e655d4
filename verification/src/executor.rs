//! The executor's entry point.
use vstd::prelude::*;

use crate::machine::{initial_state, HandleView, Instructor, State};

verus! {

/// The Async Serde executor.
pub struct Executor<D> {
    deserializer: D,
}

impl<D> View for Executor<D> {
    type V = D;

    closed spec fn view(&self) -> D {
        self.deserializer
    }
}

impl<D> Executor<D> {
    /// Creates the executor.
    pub fn new(deserializer: D) -> (r: Self)
        ensures
            r@ == deserializer,
    {
        Executor { deserializer }
    }

    /// Starts a run: hands back the deserializer, the state in which the
    /// executor starts, and the instructor that the run is given.
    pub fn start<'de>(self) -> (r: (D, State<'de>, Instructor))
        ensures
            r.0 == self@,
            r.1@ == initial_state(),
            r.2@ == (HandleView { cloned: false, depth: 0 }),
    {
        let state = State::new();
        let instructor = Instructor::root();
        (self.deserializer, state, instructor)
    }
}

} // verus!
