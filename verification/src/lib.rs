//! Core of an Iceberg-style table format: the metadata tree (manifests,
//! manifest lists, snapshots, view versions), the schema strings of the row
//! container that persists them, and the pure parts of scan planning and
//! committing. All logic is verified; the binary container codec and the
//! object-store transport stay behind narrow trusted boundaries.

pub mod catalog;
pub mod error;
pub mod identifier;
pub mod manifest;
pub mod manifest_list;
pub mod namespace;
pub mod partition;
pub mod scan;
pub mod schema;
pub mod snapshot;
pub mod table;
mod trusted;
pub mod value;
pub mod view_builder;
pub mod view_metadata;
