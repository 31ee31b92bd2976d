use vstd::prelude::*;

use crate::schema::Schema;

verus! {

/// What a view version did to the view.
#[derive(Debug, Clone, Copy, PartialEq, Eq, Structural)]
pub enum Operation {
    /// The version created the view.
    Create,
    /// The version replaced the definition of the view.
    Replace,
}

/// The summary of a view version.
#[derive(Debug, Clone, PartialEq)]
pub struct Summary {
    /// What the version did.
    pub operation: Operation,
    /// The engine that wrote the version, if recorded.
    pub engine_version: Option<String>,
}

/// One representation of the logical definition of a view.
#[derive(Debug, Clone, PartialEq)]
pub enum Representation {
    /// The definition as a query text in some dialect.
    Sql {
        /// The query text.
        sql: String,
        /// The dialect the query is written in.
        dialect: String,
        /// The schema the query was resolved against, if recorded.
        schema_id: Option<i64>,
        /// The catalog unqualified names resolve against, if recorded.
        default_catalog: Option<String>,
        /// The namespace unqualified names resolve against, if recorded.
        default_namespace: Option<Vec<String>>,
        /// Output column aliases, if recorded.
        field_aliases: Option<Vec<String>>,
        /// Output column documentation, if recorded.
        field_docs: Option<Vec<String>>,
    },
}

/// One version of a view: when it was created and how the view was defined.
#[derive(Debug, Clone, PartialEq)]
pub struct Version {
    /// The identifier of the version.
    pub version_id: i64,
    /// When the version was created, in milliseconds since the epoch.
    pub timestamp_ms: i64,
    /// What the version did.
    pub summary: Summary,
    /// The representations of the definition.
    pub representations: Vec<Representation>,
}

/// One line of the version log: which version became current, and when.
#[derive(Debug, Clone, PartialEq)]
pub struct VersionLogStruct {
    /// When the version became current, in milliseconds since the epoch.
    pub timestamp_ms: i64,
    /// The version that became current.
    pub version_id: i64,
}

/// The root document of a view: its versions take the place a table gives
/// to snapshots.
#[derive(Debug, Clone, PartialEq)]
pub struct ViewMetadataV1 {
    /// The base location of the view.
    pub location: String,
    /// The schema history of the view.
    pub schemas: Option<Vec<Schema>>,
    /// The identifier of the current schema.
    pub current_schema_id: Option<i32>,
    /// Every version of the view.
    pub versions: Vec<Version>,
    /// The identifier of the current version.
    pub current_version_id: i64,
    /// Which version became current at which time.
    pub version_log: Vec<VersionLogStruct>,
    /// Free-form view properties.
    pub properties: Option<Vec<(String, String)>>,
}

} // verus!
