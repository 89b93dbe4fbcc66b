//! Error taxonomy of a validator runtime: a closed set of failure categories,
//! the execution error that carries a classified kind, and the classifier that
//! turns raw virtual-machine status codes into that kind.

pub mod base_types;
pub mod status;
pub mod messages;
pub mod execution;
pub mod error;
