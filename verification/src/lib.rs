//! A run-once initialization primitive for singleton values, paired with a
//! capability token: once a caller holds a token, it may read the guarded
//! value with no further state check.
//!
//! The pieces: a [`storage::StorageCell`] holds the value, a
//! [`gate::InitGate`] serializes initialization attempts into a single
//! run of the initializer, a [`guarded::Static`] composes the two with an
//! initializer, and a [`token::Token`] proves that initialization completed
//! for the guarded value it was issued for. The laws the machine obeys are
//! stated and proved in [`laws`].

pub mod gate;
pub mod guarded;
pub mod initializer;
pub mod laws;
pub mod storage;
pub mod token;
