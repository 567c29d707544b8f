//! Conversions between the wire schema of ledger data (optional submessages,
//! byte buffers, tagged unions) and the canonical in-memory domain model.
//!
//! Domain to wire never fails. Wire to domain checks that every submessage
//! the domain needs is present and well formed, and returns the first failure.
//!
//! Each domain type `X` of [`domain`] has, beside its wire message in [`wire`]:
//! - `carried_by(w)`: the wire value `w` carries this domain value. Types that
//!   hold a timestamp (directly or below) take a flag `exact`: `true` for the
//!   one wire form that `to_wire` writes, `false` for every form that reads
//!   back as the value (a timestamp's nanoseconds are truncated to
//!   milliseconds; an older prologue ignores the fields of newer ones).
//! - `wire_error(w)`: the failure of reading `w`, the first in field order.
//! - `to_wire`, whose result carries the value exactly, and `from_wire`, which
//!   fails exactly with `wire_error(w)` and otherwise returns a value that `w`
//!   carries.
//! - `lemma_wire_round_trip`: a wire value that carries a domain value reads
//!   without error.

pub mod bls12381;
pub mod checkpoint;
pub mod domain;
pub mod effects;
pub mod error;
pub mod laws;
pub mod objects;
pub mod programmable;
pub mod scalar;
pub mod seqs;
pub mod transaction;
pub mod wire;

pub use error::{SourceError, TryFromProtoError};
pub use scalar::{proto_to_timestamp_ms, timestamp_ms_to_proto};
