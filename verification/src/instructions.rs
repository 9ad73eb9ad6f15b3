//! The three operations of the split lifecycle: creation, contribution, and
//! release. Each validates, then commits a whole new state or fails with no
//! effect; the environment runs each as an atomic, serialized transaction.

pub mod contribute;
pub mod create_split;
pub mod release;
