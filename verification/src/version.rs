//! The version record served by the one endpoint this process implements
//! itself, and the entries automatic derivation contributes for it to the
//! composite document.

use crate::composer::{HttpMethod, OperationDescriptor, PathEntry, SchemaEntry};
use vstd::prelude::*;

verus! {

pub const CARGO_PKG_NAME: &'static str = "serve-replica";

pub const CARGO_PKG_VERSION: &'static str = "0.1.0";

/// Version record for this package and its first-party dependencies.
#[derive(Debug, PartialEq)]
pub struct Version {
    /// version of serve-replica
    pub version: &'static str,

    /// version of replica-backend
    pub replica_backend: &'static str,

    /// version of rust-actix-diesel-auth-scaffold
    pub radas: &'static str,

    /// name of this package
    pub name: &'static str,
}

impl Version {
    /// The record this build reports.
    pub fn const_default() -> (v: Self)
        ensures
            v.version@ == "0.1.0"@,
            v.radas@ == "0.1.0"@,
            v.replica_backend@ == "0.1.0"@,
            v.name@ == "serve-replica"@,
    {
        Self {
            version: "0.1.0",
            radas: "0.1.0",
            replica_backend: "0.1.0",
            name: "serve-replica",
        }
    }
}

impl Default for Version {
    fn default() -> (v: Self)
        ensures
            v.version@ == "0.1.0"@,
            v.radas@ == "0.1.0"@,
            v.replica_backend@ == "0.1.0"@,
            v.name@ == "serve-replica"@,
    {
        Self::const_default()
    }
}

/// Versions of this package and its first-party dependencies: the payload
/// of the version endpoint.
pub fn version() -> (v: Version)
    ensures
        v.version@ == "0.1.0"@,
        v.radas@ == "0.1.0"@,
        v.replica_backend@ == "0.1.0"@,
        v.name@ == "serve-replica"@,
{
    Version::const_default()
}

/// The schema entry automatic derivation yields for the version record.
pub fn version_schema_entry() -> (e: SchemaEntry)
    ensures
        e.name@ == "Version"@,
{
    SchemaEntry {
        name: "Version".to_owned(),
        definition: "object: version, replica_backend, radas, name (strings)".to_owned(),
    }
}

/// The path entry automatic derivation yields for the version endpoint.
pub fn version_path_entry() -> (p: PathEntry)
    ensures
        p.path@ == "/api"@,
        p.method == HttpMethod::Get,
        p.op.response_schema_ref@ == "Version"@,
        p.op.request_body_schema_ref is None,
        p.op.response_example is None,
{
    PathEntry {
        path: "/api".to_owned(),
        method: HttpMethod::Get,
        op: OperationDescriptor {
            summary: "Versions of this package and its first-party dependencies".to_owned(),
            request_body_schema_ref: None,
            response_schema_ref: "Version".to_owned(),
            response_example: None,
        },
    }
}

} // verus!
