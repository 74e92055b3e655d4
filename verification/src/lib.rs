//! A verified core for driving serde deserialization through a step-by-step
//! instruction protocol.
//!
//! A run holds an `Instructor`, asks it for a type (`Deserialize`), and gets
//! a `Step` once the deserializer reported what it found (`Visit`). The
//! executor's `State` tracks the pending request, the reported value, the
//! buffered data and the depth; its transitions are all verified here.
pub mod executor;
pub mod inspect;
pub mod laws;
pub mod machine;
pub mod request;
pub mod visit;

pub use executor::Executor;
pub use inspect::Inspect;
pub use machine::{Ask, BridgeError, InternalOp, SeqInstructor, State, Step, Instructor};
pub use request::Deserialize;
pub use visit::Visit;
