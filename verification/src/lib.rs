//! Decoder for persisted world-entity records.
//!
//! A persisted entity is one structured document: a fixed outer envelope
//! (key, version, identity, class, access rules, properties) together with an
//! open-ended map of named component documents ("scopes"). This crate decodes
//! the envelope, tolerating legacy field spellings, and dispatches each
//! component document to its tag's schema, keeping unrecognized tags as an
//! explicit sentinel value rather than failing.

pub mod doc;
pub mod envelope;
pub mod jsonio;
pub mod model;
pub mod scopes;
