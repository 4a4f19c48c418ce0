use crate::api_url::{
    create_distribution_info_query_url, create_distributions_query_url,
    create_major_versions_query_url, create_package_info_query_url, create_package_query_url,
    distribution_info_path, endpoint_url, major_versions_query, package_info_path, package_query,
    API_DEFAULT_URL,
};
use crate::distributions::{DistributionInfo, DistributionList};
use crate::major_versions::MajorVersionList;
use crate::package::{PackageInfo, PackageList};
use crate::query::{MajorVersionsQueryOptions, PackageQueryOptions};
use crate::Error;
use reqwest::Error as TransportError;
use serde_json::Error as JsonError;
use vstd::prelude::*;

verus! {

/// The connect timeout of the HTTP client, in milliseconds. Reading the
/// response has no timeout.
pub const CONNECT_TIMEOUT_MS: u64 = 3000;

/// What the caller of a retrieval reports back after doing what the last
/// `Pull` asked for.
#[derive(Debug)]
pub enum Event<T> {
    /// The server answered the GET with this status code and status line.
    Responded { status: u16, reason: String },
    /// The full body of a successful response, as text.
    Body(String),
    /// The body decoded as JSON into the record that the retrieval returns.
    Decoded(Result<T, JsonError>),
    /// The transfer failed: no connection, a timeout, or a broken body.
    Failed(TransportError),
}

/// The next step of a retrieval.
#[derive(Debug)]
pub enum Pull<T> {
    /// Issue a GET request to this URL, then report `Responded` or `Failed`.
    Get(String),
    /// Read the body of the response as text, then report `Body` or `Failed`.
    ReadBody,
    /// Decode this text as JSON into the expected record, then report `Decoded`.
    Decode(String),
    /// The retrieval is over, with this result.
    Done(Result<T, Error>),
}

pub open spec fn is_success(status: u16) -> bool {
    200 <= status < 300
}

/// The base URL of a retrieval: the one given, else the default service.
pub open spec fn base_of(api_url: Option<String>) -> Seq<char> {
    match api_url {
        Some(u) => u@,
        None => API_DEFAULT_URL@,
    }
}

/// The step that follows `event` in every retrieval. Every failure ends the
/// retrieval with its own error kind; a status outside 2xx ends it before
/// the body is read.
pub open spec fn next_pull<T>(event: Event<T>) -> Pull<T> {
    match event {
        Event::Responded { status, reason } => if is_success(status) {
            Pull::ReadBody
        } else {
            Pull::Done(Err(Error::HttpResponse(reason)))
        },
        Event::Body(text) => Pull::Decode(text),
        Event::Decoded(Ok(v)) => Pull::Done(Ok(v)),
        Event::Decoded(Err(e)) => Pull::Done(Err(Error::JsonParse(e))),
        Event::Failed(e) => Pull::Done(Err(Error::Http(e))),
    }
}

/// The first step of a retrieval whose endpoint URL is `url` (`None` where
/// it cannot be built): a GET of that URL, or the end with a URL error.
pub open spec fn first_pull<T>(r: Pull<T>, url: Option<Seq<char>>) -> bool {
    match r {
        Pull::Get(u) => url == Some(u@),
        Pull::Done(Err(e)) => url is None && e is UrlParse,
        _ => false,
    }
}

/// A retrieval of a listing: `r` is the step after `event`, or the first
/// step where there is no event yet.
pub open spec fn pull_step<T>(r: Pull<T>, url: Option<Seq<char>>, event: Option<Event<T>>) -> bool {
    match event {
        None => first_pull(r, url),
        Some(e) => r == next_pull(e),
    }
}

/// A retrieval of details that the service sends as a one-entry list: as
/// `pull_step`, except that a decoded list whose length is not one ends the
/// retrieval with a JSON error.
pub open spec fn info_step<T>(
    r: Pull<T>,
    url: Option<Seq<char>>,
    event: Option<Event<T>>,
    entries: spec_fn(T) -> nat,
) -> bool {
    match event {
        Some(Event::Decoded(Ok(v))) => if entries(v) == 1 {
            r == Pull::<T>::Done(Ok(v))
        } else {
            r matches Pull::Done(Err(Error::JsonParse(_)))
        },
        _ => pull_step(r, url, event),
    }
}

/// A response whose status is outside 2xx ends a retrieval with an HTTP
/// response error that holds its status line; its body is never read, so
/// nothing is decoded from it, whatever it holds.
pub proof fn lemma_error_status_never_decodes<T>(
    r: Pull<T>,
    url: Option<Seq<char>>,
    status: u16,
    reason: String,
)
    requires
        !is_success(status),
        pull_step(r, url, Some(Event::Responded { status, reason })),
    ensures
        r == Pull::<T>::Done(Err(Error::HttpResponse(reason))),
        !(r is Decode),
        !(r matches Pull::Done(Ok(_))),
{
}

/// A body that does not decode ends a retrieval with a JSON error, and no
/// record is returned.
pub proof fn lemma_decode_failure_returns_no_record<T>(
    r: Pull<T>,
    url: Option<Seq<char>>,
    e: JsonError,
)
    requires
        pull_step(r, url, Some(Event::Decoded(Err(e)))),
    ensures
        r == Pull::<T>::Done(Err(Error::JsonParse(e))),
{
}

/// Whatever the event, a retrieval of package details that succeeds returns
/// exactly one entry.
pub proof fn lemma_package_info_has_one_entry(
    r: Pull<PackageInfo>,
    url: Option<Seq<char>>,
    event: Option<Event<PackageInfo>>,
)
    requires
        info_step(r, url, event, |v: PackageInfo| package_info_entries(v)),
    ensures
        r matches Pull::Done(Ok(v)) ==> v.wf(),
{
}

/// Whatever the event, a retrieval of distribution details that succeeds
/// returns exactly one entry.
pub proof fn lemma_distribution_info_has_one_entry(
    r: Pull<DistributionInfo>,
    url: Option<Seq<char>>,
    event: Option<Event<DistributionInfo>>,
)
    requires
        info_step(r, url, event, |v: DistributionInfo| distribution_info_entries(v)),
    ensures
        r matches Pull::Done(Ok(v)) ==> v.wf(),
{
}

fn base_url(api_url: &Option<String>) -> (r: &str)
    ensures
        r@ == base_of(*api_url),
{
    match api_url {
        Some(u) => u.as_str(),
        None => API_DEFAULT_URL,
    }
}

fn first_step<T>(url: Result<String, Error>, Ghost(expected): Ghost<Option<Seq<char>>>) -> (r: Pull<
    T,
>)
    requires
        crate::api_url::url_result(url, expected),
    ensures
        first_pull(r, expected),
{
    match url {
        Ok(u) => Pull::Get(u),
        Err(e) => Pull::Done(Err(e)),
    }
}

fn next_step<T>(event: Event<T>) -> (r: Pull<T>)
    ensures
        r == next_pull(event),
{
    match event {
        Event::Responded { status, reason } => {
            if 200 <= status && status < 300 {
                Pull::ReadBody
            } else {
                Pull::Done(Err(Error::HttpResponse(reason)))
            }
        },
        Event::Body(text) => Pull::Decode(text),
        Event::Decoded(Ok(v)) => Pull::Done(Ok(v)),
        Event::Decoded(Err(e)) => Pull::Done(Err(Error::JsonParse(e))),
        Event::Failed(e) => Pull::Done(Err(Error::Http(e))),
    }
}

/// Relies on serde's `de::Error::invalid_length` to describe a list whose
/// length is not the one expected.
#[verifier::external_body]
fn wrong_length(len: usize) -> (r: JsonError) {
    <JsonError as serde::de::Error>::invalid_length(len, &"a list of exactly one entry")
}

/// Lists the packages that match `query_opts`, from the service at `api_url`
/// or else the default one. Each call takes the retrieval one step on; the
/// first call has no event.
pub fn pull_packages(
    api_url: Option<String>,
    query_opts: Option<PackageQueryOptions>,
    event: Option<Event<PackageList>>,
) -> (r: Pull<PackageList>)
    ensures
        pull_step(r, endpoint_url(base_of(api_url), "packages"@, package_query(query_opts)), event),
{
    match event {
        None => first_step(
            create_package_query_url(base_url(&api_url), query_opts),
            Ghost(endpoint_url(base_of(api_url), "packages"@, package_query(query_opts))),
        ),
        Some(e) => next_step(e),
    }
}

pub open spec fn package_info_entries(v: PackageInfo) -> nat {
    v.result.len() as nat
}

pub open spec fn distribution_info_entries(v: DistributionInfo) -> nat {
    v.result.len() as nat
}

/// Fetches the download details of the package with id `package`. A decoded
/// answer that does not hold exactly one entry is a JSON error.
pub fn pull_package_info(
    api_url: Option<String>,
    package: String,
    event: Option<Event<PackageInfo>>,
) -> (r: Pull<PackageInfo>)
    ensures
        info_step(
            r,
            endpoint_url(base_of(api_url), package_info_path(package@), Seq::empty()),
            event,
            |v: PackageInfo| package_info_entries(v),
        ),
{
    match event {
        None => first_step(
            create_package_info_query_url(base_url(&api_url), package.as_str()),
            Ghost(endpoint_url(base_of(api_url), package_info_path(package@), Seq::empty())),
        ),
        Some(Event::Decoded(Ok(v))) => {
            if v.result.len() == 1 {
                Pull::Done(Ok(v))
            } else {
                Pull::Done(Err(Error::JsonParse(wrong_length(v.result.len()))))
            }
        },
        Some(e) => next_step(e),
    }
}

/// Lists the major versions that match `query_opts`.
pub fn pull_major_versions(
    api_url: Option<String>,
    query_opts: Option<MajorVersionsQueryOptions>,
    event: Option<Event<MajorVersionList>>,
) -> (r: Pull<MajorVersionList>)
    ensures
        pull_step(
            r,
            endpoint_url(base_of(api_url), "major_versions"@, major_versions_query(query_opts)),
            event,
        ),
{
    match event {
        None => first_step(
            create_major_versions_query_url(base_url(&api_url), query_opts),
            Ghost(
                endpoint_url(base_of(api_url), "major_versions"@, major_versions_query(query_opts)),
            ),
        ),
        Some(e) => next_step(e),
    }
}

/// Lists the distributions.
pub fn pull_distributions(api_url: Option<String>, event: Option<Event<DistributionList>>) -> (r:
    Pull<DistributionList>)
    ensures
        pull_step(r, endpoint_url(base_of(api_url), "distributions"@, Seq::empty()), event),
{
    match event {
        None => first_step(
            create_distributions_query_url(base_url(&api_url)),
            Ghost(endpoint_url(base_of(api_url), "distributions"@, Seq::empty())),
        ),
        Some(e) => next_step(e),
    }
}

/// Fetches the details of the distribution named `distribution`. A decoded
/// answer that does not hold exactly one entry is a JSON error.
pub fn pull_distribution_info(
    api_url: Option<String>,
    distribution: String,
    event: Option<Event<DistributionInfo>>,
) -> (r: Pull<DistributionInfo>)
    ensures
        info_step(
            r,
            endpoint_url(base_of(api_url), distribution_info_path(distribution@), Seq::empty()),
            event,
            |v: DistributionInfo| distribution_info_entries(v),
        ),
{
    match event {
        None => first_step(
            create_distribution_info_query_url(base_url(&api_url), distribution.as_str()),
            Ghost(endpoint_url(base_of(api_url), distribution_info_path(distribution@), Seq::empty())),
        ),
        Some(Event::Decoded(Ok(v))) => {
            if v.result.len() == 1 {
                Pull::Done(Ok(v))
            } else {
                Pull::Done(Err(Error::JsonParse(wrong_length(v.result.len()))))
            }
        },
        Some(e) => next_step(e),
    }
}

} // verus!
