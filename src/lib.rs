//! Client library for a catalog service of Java runtime packages: query
//! strings built from optional filters, endpoint URLs, and the steps of a
//! retrieval (request, status check, body, decoded record). The caller
//! performs each transfer and decode that a step asks for and reports back.

use vstd::prelude::*;

pub mod api_url;
pub mod distributions;
pub mod http;
pub mod major_versions;
pub mod package;
pub mod query;

pub use api_url::{
    create_distribution_info_query_url, create_distributions_query_url,
    create_major_versions_query_url, create_package_info_query_url, create_package_query_url,
    API_DEFAULT_URL,
};

pub use distributions::{Distribution, DistributionInfo, DistributionList};
pub use http::{
    pull_distribution_info, pull_distributions, pull_major_versions, pull_package_info,
    pull_packages, Event, Pull,
};
pub use major_versions::{MajorVersion, MajorVersionList};
pub use package::{Feature, Package, PackageInfo, PackageInfoInner, PackageList};
pub use query::{MajorVersionsQueryOptions, PackageQueryOptions};

use reqwest::Error as TransportError;
use serde_json::Error as JsonError;

verus! {

#[verifier::external_type_specification]
#[verifier::external_body]
pub struct ExUrlParseError(url::ParseError);

#[verifier::external_type_specification]
#[verifier::external_body]
pub struct ExTransportError(TransportError);

#[verifier::external_type_specification]
#[verifier::external_body]
pub struct ExJsonError(JsonError);

/// Why a retrieval failed. Each kind is passed on unchanged from the step
/// where it arose.
#[derive(Debug)]
pub enum Error {
    /// The base URL is no valid URL, or a path could not be joined onto it.
    UrlParse(url::ParseError),
    /// The transfer failed before a complete response was read.
    Http(TransportError),
    /// The server answered with a status outside 2xx; holds its status line.
    HttpResponse(String),
    /// The body is no JSON document of the expected shape.
    JsonParse(JsonError),
}

} // verus!
