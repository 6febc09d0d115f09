//! Differential-verification harness support for two instruction-execution
//! engines of the same processor family: an opaque, callback-driven reference
//! engine and an independently implemented model engine.
//!
//! The library owns the pieces that make the comparison possible and proves
//! them correct: the address-space classifier, the memory bus shim the
//! reference engine calls back into, the bounded operation log, the undo
//! engine that restores sentinel memory between rounds, the state
//! synchronizer's planning and read-back, the equivalence checker, and the
//! opcode enumeration used to drive fuzzing. Talking to the engines
//! themselves is left to a thin unverified layer around this crate.

pub mod bus;
pub mod check;
pub mod fault;
pub mod fuzz;
pub mod op;
pub mod oplog;
pub mod register;
pub mod space;
pub mod state;
pub mod sync;
