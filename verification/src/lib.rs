//! A canonical JSON encoder: values of a closed data model — booleans,
//! integers, characters, strings, verbatim byte tokens, optionals, unit
//! values, records, sequences, maps and tagged variants — are written
//! incrementally to an append-only character sink as one deterministic,
//! minimal JSON document.
//!
//! `model` gives the data model and the exact character sequence owed for
//! every value; `ser` is the encoder and `sequence`, `mapping` and `struct_`
//! its nested-container builders; `laws` states the encoder's laws as proofs.

pub mod laws;
pub mod mapping;
pub mod model;
pub mod sequence;
pub mod ser;
pub mod struct_;
