//! A verified model of a minimal counter service: one persisted record
//! holding a single unsigned 8-bit counter, with five authorized
//! operations — create, increment, decrement, set and close. The
//! arithmetic never wraps (an increment at the maximum value and a
//! decrement at zero fail instead), and the record's lifecycle — it
//! exists or it does not — is tracked exactly, so that every operation
//! on a closed record is proved to fail.

pub mod errors;
pub mod record;
pub mod service;
