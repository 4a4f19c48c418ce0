use vstd::prelude::*;

verus! {

/// A listing of distributions, with the service's message.
#[derive(Debug, Clone)]
pub struct DistributionList {
    pub result: Vec<Distribution>,
    pub message: String,
}

/// The details of one distribution. The service sends them as a list; a
/// well-formed value holds exactly one entry.
#[derive(Debug, Clone)]
pub struct DistributionInfo {
    pub result: Vec<Distribution>,
    pub message: String,
}

/// A vendor's line of builds of the runtime.
#[derive(Debug, Clone)]
pub struct Distribution {
    pub name: String,
    pub api_parameter: String,
    pub maintained: bool,
    pub available: bool,
    pub build_of_openjdk: bool,
    pub build_of_graalvm: bool,
    pub official_uri: String,
    pub versions: Vec<String>,
}

impl DistributionInfo {
    pub open spec fn wf(&self) -> bool {
        self.result.len() == 1
    }
}

} // verus!
