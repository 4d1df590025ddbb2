//! Builders for pipeline-aggregation operator documents.
//!
//! Each builder turns typed, validated parameters into one node of a
//! search-engine aggregation query: a single-key document whose key is the
//! operator's name and whose value is a map of fields. Optional inputs that
//! were not supplied are entirely absent from the field map, and the
//! bucket-script builder rejects variable/parameter lists of unequal length.

pub mod builders;
pub mod doc;
pub mod keymap;
pub mod laws;
