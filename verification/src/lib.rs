//! A memory-safe, verified binding layer for a handle-based MIDI C API.
//!
//! The library pins down the protocol that underlies every operation of such
//! a binding: each native call is followed immediately by a check of the
//! per-handle status fields ([`bindings::status_result`]), every string
//! crossing the boundary goes through null-terminated marshalling
//! ([`marshal`]), and variable-length outputs use the two-phase "query
//! length, then fill" pattern, proved free of overruns and off-by-one
//! errors ([`midi::port_name`]).
//!
//! The native collaborator itself — backends, drivers, its I/O thread — is
//! modelled as explicit state ([`bindings::NativeSystem`] and
//! [`bindings::NativeDevice`]) whose transitions state what the C API
//! documents, so the whole handle lifecycle (created once, destroyed exactly
//! once, no leaks) and message I/O are checked end to end.  An unverified
//! shell can drive the same checked translation and marshalling functions
//! against the real foreign calls.

pub mod api;
pub mod bindings;
pub mod error;
pub mod marshal;
pub mod midi;
