//! The fixed set of server endpoints and the HTTP methods used against them.

use vstd::prelude::*;

verus! {

/// The API endpoints the collaborator server offers.
#[derive(Debug)]
pub enum EndpointMapping {
    Health,
    GetTable,
    GetSecret,
    PutSecret,
    ListTables,
    CreateTable,
    DeleteSecret,
}

/// The URL path of an endpoint.
pub open spec fn spec_endpoint_path(e: EndpointMapping) -> Seq<char> {
    match e {
        EndpointMapping::Health => "/health"@,
        EndpointMapping::GetTable => "/get-table"@,
        EndpointMapping::GetSecret => "/get-secret"@,
        EndpointMapping::PutSecret => "/put-secret"@,
        EndpointMapping::ListTables => "/list-tables"@,
        EndpointMapping::CreateTable => "/create-table"@,
        EndpointMapping::DeleteSecret => "/delete-secret"@,
    }
}

impl EndpointMapping {
    /// Maps the endpoint to its URL path.
    pub fn as_str(&self) -> (r: &str)
        ensures
            r@ == spec_endpoint_path(*self),
    {
        match self {
            EndpointMapping::Health => "/health",
            EndpointMapping::GetTable => "/get-table",
            EndpointMapping::GetSecret => "/get-secret",
            EndpointMapping::PutSecret => "/put-secret",
            EndpointMapping::ListTables => "/list-tables",
            EndpointMapping::CreateTable => "/create-table",
            EndpointMapping::DeleteSecret => "/delete-secret",
        }
    }
}

/// The HTTP methods a request can use.
#[derive(Debug, PartialEq, Eq, Structural)]
pub enum Method {
    Get,
    Put,
    Delete,
    Post,
}

} // verus!
