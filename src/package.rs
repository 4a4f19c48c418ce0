use std::collections::HashMap;
use vstd::prelude::*;

verus! {

/// A listing of packages.
#[derive(Debug, Clone)]
pub struct PackageList {
    pub result: Vec<Package>,
}

/// One downloadable build: a distribution's runtime for one version,
/// operating system, architecture and archive type. Enumeration-like fields
/// hold the service's text as it stands.
#[derive(Debug, Clone)]
pub struct Package {
    pub id: String,
    pub archive_type: String,
    pub distribution: String,
    pub major_version: u32,
    pub java_version: String,
    pub distribution_version: String,
    pub jdk_version: u32,
    pub latest_build_available: bool,
    pub release_status: String,
    pub term_of_support: String,
    pub operating_system: String,
    pub lib_c_type: String,
    pub architecture: String,
    pub fpu: String,
    pub package_type: String,
    pub javafx_bundled: bool,
    pub directly_downloadable: bool,
    pub filename: String,
    pub links: HashMap<String, String>,
    pub free_use_in_production: bool,
    pub tck_tested: String,
    pub tck_cert_uri: String,
    pub aqavit_certified: String,
    pub aqavit_cert_uri: String,
    pub size: i64,
    pub feature: Vec<Feature>,
}

/// A feature of a package.
#[derive(Debug, Clone)]
pub struct Feature {
    pub name: String,
    pub ui_string: String,
    pub api_string: String,
}

/// The download details of one package. The service sends them as a list;
/// a well-formed value holds exactly one entry.
#[derive(Debug, Clone)]
pub struct PackageInfo {
    pub result: Vec<PackageInfoInner>,
    pub message: String,
}

/// Where and how to download one package, and how to check it.
#[derive(Debug, Clone)]
pub struct PackageInfoInner {
    pub filename: String,
    pub direct_download_uri: String,
    pub download_site_uri: String,
    pub signature_uri: String,
    pub checksum_uri: String,
    pub checksum: String,
    pub checksum_type: String,
}

impl PackageInfo {
    pub open spec fn wf(&self) -> bool {
        self.result.len() == 1
    }
}

} // verus!
