//! Synthesis of the builder pattern from record-type descriptions.
//!
//! Given the description of a record type — its name and its ordered list of
//! named fields — the library produces a schema from which a generic builder
//! can be instantiated: one optional slot per field, setters that fill slots
//! one at a time in any order, and a finalizer that either assembles the
//! record's field values or reports the first field left unset.

pub mod command;
pub mod description;
pub mod instance;
pub mod laws;
pub mod synth;
