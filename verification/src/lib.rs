//! Value representation and execution core of a small scripting runtime.
//!
//! `pv` holds the values: reference-counted storage that is copied before a
//! shared handle is written to, and the tagged value type built on it. `pl`
//! holds the stack machine that runs bytecode over those values.

pub mod pl;
pub mod pv;

pub use pl::bytecode::{PlInstruction, PlState};
pub use pv::{Pv, PvArray, PvBool, PvInt, PvInvalid, PvNull, PvObject, PvString};
