use crate::query::{query_of, MajorVersionsQueryOptions, PackageQueryOptions};
use crate::Error;
use vstd::prelude::*;

verus! {

#[verifier::external_type_specification]
#[verifier::external_body]
pub struct ExUrl(url::Url);

/// The service that the retrievals address when no other base is given.
pub const API_DEFAULT_URL: &'static str = "https://api.foojay.io/disco/";

/// The version segment that every endpoint path starts with.
pub const API_VERSION: &'static str = "v3.0/";

/// The serialization of the URL that `url::Url::parse` reads from `input`, or
/// `None` where it reports an error.
pub uninterp spec fn parsed_url(input: Seq<char>) -> Option<Seq<char>>;

/// The serialization of the URL that `url::Url::join` makes of `input` with
/// the URL serialized as `base` for a base, or `None` where it reports an error.
pub uninterp spec fn joined_url(base: Seq<char>, input: Seq<char>) -> Option<Seq<char>>;

/// The serialization of the URL serialized as `url` once `url::Url::set_query`
/// has given it the query `query`.
pub uninterp spec fn url_with_query(url: Seq<char>, query: Seq<char>) -> Seq<char>;

/// A parsed URL, kept beside its serialization.
pub struct ApiUrl {
    url: url::Url,
    text: String,
}

impl View for ApiUrl {
    type V = Seq<char>;

    closed spec fn view(&self) -> Seq<char> {
        self.text@
    }
}

/// Relies on `url::Url::parse` to read an absolute URL from text.
#[verifier::external_body]
fn parse_url(input: &str) -> (r: Result<ApiUrl, url::ParseError>)
    ensures
        r is Ok <==> parsed_url(input@) is Some,
        r matches Ok(u) ==> parsed_url(input@) == Some(u@),
{
    match url::Url::parse(input) {
        Ok(url) => Ok(ApiUrl { text: String::from(url.as_str()), url }),
        Err(e) => Err(e),
    }
}

/// Relies on `url::Url::join` to resolve `input` against `base`.
#[verifier::external_body]
fn join_url(base: &ApiUrl, input: &str) -> (r: Result<ApiUrl, url::ParseError>)
    ensures
        r is Ok <==> joined_url(base@, input@) is Some,
        r matches Ok(u) ==> joined_url(base@, input@) == Some(u@),
{
    match base.url.join(input) {
        Ok(url) => Ok(ApiUrl { text: String::from(url.as_str()), url }),
        Err(e) => Err(e),
    }
}

/// Relies on `url::Url::set_query` to replace the query of `u`.
#[verifier::external_body]
fn set_url_query(u: &mut ApiUrl, query: &str)
    ensures
        final(u)@ == url_with_query(old(u)@, query@),
{
    u.url.set_query(Some(query));
    u.text = String::from(u.url.as_str());
}

impl ApiUrl {
    fn into_string(self) -> (r: String)
        ensures
            r@ == self@,
    {
        self.text
    }
}

/// The URL of an endpoint: `base`, joined with the version segment, then with
/// `path`; then `query` as its query, unless `query` is empty, in which case
/// the URL gets no query at all.
pub open spec fn endpoint_url(base: Seq<char>, path: Seq<char>, query: Seq<char>) -> Option<
    Seq<char>,
> {
    match parsed_url(base) {
        None => None,
        Some(b) => match joined_url(b, API_VERSION@) {
            None => None,
            Some(v) => match joined_url(v, path) {
                None => None,
                Some(e) => Some(
                    if query.len() == 0 {
                        e
                    } else {
                        url_with_query(e, query)
                    },
                ),
            },
        },
    }
}

/// What a call that builds an endpoint URL returns: the URL, or a URL error
/// exactly where `endpoint_url` has none.
pub open spec fn url_result(r: Result<String, Error>, expected: Option<Seq<char>>) -> bool {
    match r {
        Ok(s) => expected == Some(s@),
        Err(e) => expected is None && e is UrlParse,
    }
}

fn build_url(base: &str, path: &str, query: &str) -> (r: Result<String, Error>)
    ensures
        url_result(r, endpoint_url(base@, path@, query@)),
{
    let b = match parse_url(base) {
        Ok(u) => u,
        Err(e) => return Err(Error::UrlParse(e)),
    };
    let v = match join_url(&b, API_VERSION) {
        Ok(u) => u,
        Err(e) => return Err(Error::UrlParse(e)),
    };
    let mut e = match join_url(&v, path) {
        Ok(u) => u,
        Err(e) => return Err(Error::UrlParse(e)),
    };
    if query.unicode_len() > 0 {
        set_url_query(&mut e, query);
    }
    Ok(e.into_string())
}

/// The query string of optional package filters; empty without filters.
pub open spec fn package_query(options: Option<PackageQueryOptions>) -> Seq<char> {
    match options {
        Some(o) => o.query_spec(),
        None => Seq::empty(),
    }
}

/// The query string of optional major version filters; empty without filters.
pub open spec fn major_versions_query(options: Option<MajorVersionsQueryOptions>) -> Seq<char> {
    match options {
        Some(o) => o.query_spec(),
        None => Seq::empty(),
    }
}

/// Without filters, or with none of them set, the package URL is the bare
/// endpoint: no query is attached to it.
pub proof fn lemma_unfiltered_package_url(base: Seq<char>, options: Option<PackageQueryOptions>)
    requires
        options matches Some(o) ==> {
            &&& o.version is None
            &&& o.distribution is None
            &&& o.architecture is None
            &&& o.archive_type is None
            &&& o.package_type is None
            &&& o.operating_system is None
            &&& o.libc_type is None
            &&& o.release_status is None
            &&& o.term_of_support is None
            &&& o.bitness is None
            &&& o.javafx_bundled is None
            &&& o.directly_downloadable is None
            &&& o.latest is None
        },
    ensures
        endpoint_url(base, "packages"@, package_query(options)) == match parsed_url(base) {
            None => None,
            Some(b) => match joined_url(b, API_VERSION@) {
                None => None,
                Some(v) => joined_url(v, "packages"@),
            },
        },
{
    if let Some(o) = options {
        crate::query::lemma_empty_package_query(o);
    }
}

/// Without filters, or with none of them set, the major version URL is the
/// bare endpoint: no query is attached to it.
pub proof fn lemma_unfiltered_major_versions_url(
    base: Seq<char>,
    options: Option<MajorVersionsQueryOptions>,
)
    requires
        options matches Some(o) ==> {
            &&& o.early_access is None
            &&& o.general_availability is None
            &&& o.maintained is None
        },
    ensures
        endpoint_url(base, "major_versions"@, major_versions_query(options)) == match parsed_url(
            base,
        ) {
            None => None,
            Some(b) => match joined_url(b, API_VERSION@) {
                None => None,
                Some(v) => joined_url(v, "major_versions"@),
            },
        },
{
    if let Some(o) = options {
        reveal_with_fuel(query_of, 4);
        assert(o.query_spec().len() == 0);
    }
}

pub open spec fn package_info_path(package: Seq<char>) -> Seq<char> {
    "packages/"@ + package
}

pub open spec fn distribution_info_path(distribution: Seq<char>) -> Seq<char> {
    "distributions/"@ + distribution
}

/// The URL that lists the packages that match `options`.
pub fn create_package_query_url(base: &str, options: Option<PackageQueryOptions>) -> (r: Result<
    String,
    Error,
>)
    ensures
        url_result(r, endpoint_url(base@, "packages"@, package_query(options))),
{
    let query = match &options {
        Some(o) => o.to_query_string(),
        None => String::new(),
    };
    build_url(base, "packages", query.as_str())
}

/// The URL that lists the major versions that match `options`.
pub fn create_major_versions_query_url(
    base: &str,
    options: Option<MajorVersionsQueryOptions>,
) -> (r: Result<String, Error>)
    ensures
        url_result(r, endpoint_url(base@, "major_versions"@, major_versions_query(options))),
{
    let query = match &options {
        Some(o) => o.to_query_string(),
        None => String::new(),
    };
    build_url(base, "major_versions", query.as_str())
}

/// The URL of the download details of the package with id `package`.
pub fn create_package_info_query_url(base: &str, package: &str) -> (r: Result<String, Error>)
    ensures
        url_result(r, endpoint_url(base@, package_info_path(package@), Seq::empty())),
{
    let path = String::from_str("packages/").concat(package);
    proof {
        reveal_strlit("");
    }
    build_url(base, path.as_str(), "")
}

/// The URL that lists the distributions.
pub fn create_distributions_query_url(base: &str) -> (r: Result<String, Error>)
    ensures
        url_result(r, endpoint_url(base@, "distributions"@, Seq::empty())),
{
    proof {
        reveal_strlit("");
    }
    build_url(base, "distributions", "")
}

/// The URL of the details of the distribution named `distribution`.
pub fn create_distribution_info_query_url(base: &str, distribution: &str) -> (r: Result<
    String,
    Error,
>)
    ensures
        url_result(r, endpoint_url(base@, distribution_info_path(distribution@), Seq::empty())),
{
    let path = String::from_str("distributions/").concat(distribution);
    proof {
        reveal_strlit("");
    }
    build_url(base, path.as_str(), "")
}

} // verus!
