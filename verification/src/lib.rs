//! Decoder for MARC21 bibliographic records.
//!
//! The upstream byte-stream parser (the `marc_record` crate) splits raw
//! ISO 2709 data into records; this crate classifies each record's Leader
//! codes into closed enumerations, models control and data fields with
//! their subfields, and serializes the typed model into a host-neutral
//! interchange tree of mappings, lists, strings and integers.

pub mod framing;
pub mod interchange;
pub mod leader;
pub mod record;
pub mod text;
pub mod upstream;
