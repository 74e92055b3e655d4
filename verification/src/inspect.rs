//! Buffers handed out for inspection.
use vstd::prelude::*;

verus! {

/// A deserialized buffer for inspection.
pub enum Inspect<'a, 'de, T: ?Sized> {
    /// Borrowed from the deserializer's input for its whole lifetime.
    Borrowed(&'de T),
    /// Borrowed from the executor's buffer for the inspection only.
    Buffered(&'a T),
    /// Handed over to the caller.
    Owned(Box<T>),
}

/// The kind of an inspection, together with the content it shows.
pub enum InspectView<V> {
    Borrowed(V),
    Buffered(V),
    Owned(V),
}

impl<'a, 'de, T: View + ?Sized> View for Inspect<'a, 'de, T> {
    type V = InspectView<T::V>;

    open spec fn view(&self) -> InspectView<T::V> {
        match self {
            Inspect::Borrowed(t) => InspectView::Borrowed(t@),
            Inspect::Buffered(t) => InspectView::Buffered(t@),
            Inspect::Owned(t) => InspectView::Owned(t@),
        }
    }
}

} // verus!
