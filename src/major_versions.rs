use vstd::prelude::*;

verus! {

/// A listing of major versions, with the service's message.
#[derive(Debug, Clone)]
pub struct MajorVersionList {
    pub result: Vec<MajorVersion>,
    pub message: String,
}

/// A numbered release line of the platform and its support status.
#[derive(Debug, Clone)]
pub struct MajorVersion {
    pub major_version: u32,
    pub term_of_support: String,
    pub maintained: bool,
    pub early_access_only: bool,
    pub release_status: String,
    pub versions: Vec<String>,
}

} // verus!
