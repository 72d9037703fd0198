//! A boundary layer that hands native inference pipelines to a caller in
//! another runtime.
//!
//! The crate holds the protocol that every entry point of such a boundary
//! follows: how text crosses it in both directions ([`text`]), how pipelines
//! are kept behind opaque handles ([`handle`]), how variable-length results
//! are flattened into a buffer with an explicit count ([`flat`]), and how
//! every allocation is paired with exactly one release ([`ledger`]). One
//! module per pipeline kind applies that protocol to the kind's inputs and
//! outputs.
//!
//! Pipelines themselves are not part of the crate. Every entry point that
//! needs one takes the native operation as a function value, fixes what is
//! handed to it, and states its result for whatever the operation returned.
//! Scores travel as the bit patterns of their floating-point values.
//!
//! Nothing here is synchronized. A table is borrowed mutably to create and
//! to destroy and shared to run a pipeline, so whoever owns the tables
//! decides how calls through one of them take turns.

pub mod flat;
pub mod handle;
pub mod ledger;
pub mod model_type;
pub mod ner;
pub mod pos;
pub mod qa;
pub mod sentiment;
pub mod summarization;
pub mod text;
pub mod text_generation;
pub mod translation;
pub mod zero_shot;
