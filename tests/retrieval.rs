use foojay_disco::distributions::{Distribution, DistributionInfo, DistributionList};
use foojay_disco::http::{
    pull_distribution_info, pull_distributions, pull_major_versions, pull_package_info,
    pull_packages, Event, Pull,
};
use foojay_disco::major_versions::MajorVersionList;
use foojay_disco::package::{PackageInfo, PackageInfoInner, PackageList};
use foojay_disco::query::MajorVersionsQueryOptions;
use foojay_disco::Error;

fn json_error() -> serde_json::Error {
    serde_json::from_str::<serde_json::Value>("{\"result\": [").unwrap_err()
}

fn transport_error() -> reqwest::Error {
    reqwest::blocking::Client::new().get("no url").build().unwrap_err()
}

fn responded<T>(status: u16, reason: &str) -> Option<Event<T>> {
    Some(Event::Responded { status, reason: reason.to_string() })
}

fn inner() -> PackageInfoInner {
    PackageInfoInner {
        filename: "jdk.tar.gz".to_string(),
        direct_download_uri: "https://example.org/jdk.tar.gz".to_string(),
        download_site_uri: "https://example.org/".to_string(),
        signature_uri: "".to_string(),
        checksum_uri: "https://example.org/jdk.tar.gz.sha256".to_string(),
        checksum: "abc123".to_string(),
        checksum_type: "sha256".to_string(),
    }
}

fn distribution(name: &str) -> Distribution {
    Distribution {
        name: name.to_string(),
        api_parameter: name.to_lowercase(),
        maintained: true,
        available: true,
        build_of_openjdk: true,
        build_of_graalvm: false,
        official_uri: "https://example.org/".to_string(),
        versions: vec!["21.0.1".to_string(), "17.0.9".to_string()],
    }
}

#[test]
fn first_step_gets_the_endpoint() {
    match pull_packages(None, None, None) {
        Pull::Get(u) => assert_eq!(u, "https://api.foojay.io/disco/v3.0/packages"),
        other => panic!("unexpected step {:?}", other),
    }
    match pull_distributions(Some("http://localhost:8080/".to_string()), None) {
        Pull::Get(u) => assert_eq!(u, "http://localhost:8080/v3.0/distributions"),
        other => panic!("unexpected step {:?}", other),
    }
    let o = MajorVersionsQueryOptions {
        early_access: None,
        general_availability: Some(true),
        maintained: None,
    };
    match pull_major_versions(None, Some(o), None) {
        Pull::Get(u) => assert_eq!(u, "https://api.foojay.io/disco/v3.0/major_versions?ga=true"),
        other => panic!("unexpected step {:?}", other),
    }
}

#[test]
fn bad_base_ends_with_url_error() {
    let r = pull_package_info(Some("::".to_string()), "x".to_string(), None);
    assert!(matches!(r, Pull::Done(Err(Error::UrlParse(_)))));
}

#[test]
fn not_found_is_a_response_error() {
    let r = pull_packages(None, None, responded::<PackageList>(404, "404 Not Found"));
    match r {
        Pull::Done(Err(Error::HttpResponse(m))) => assert_eq!(m, "404 Not Found"),
        other => panic!("unexpected step {:?}", other),
    }
}

#[test]
fn server_error_is_a_response_error() {
    let r = pull_distributions(None, responded::<DistributionList>(500, "500 Internal Server Error"));
    assert!(matches!(r, Pull::Done(Err(Error::HttpResponse(_)))));
    let r = pull_major_versions(None, None, responded::<MajorVersionList>(302, "302 Found"));
    assert!(matches!(r, Pull::Done(Err(Error::HttpResponse(_)))));
}

#[test]
fn success_status_reads_the_body() {
    let r = pull_packages(None, None, responded::<PackageList>(200, "200 OK"));
    assert!(matches!(r, Pull::ReadBody));
    let r = pull_packages(None, None, responded::<PackageList>(299, "299"));
    assert!(matches!(r, Pull::ReadBody));
}

#[test]
fn body_is_handed_on_for_decoding() {
    let r = pull_packages(None, None, Some(Event::Body("{\"result\":[]}".to_string())));
    match r {
        Pull::Decode(t) => assert_eq!(t, "{\"result\":[]}"),
        other => panic!("unexpected step {:?}", other),
    }
}

#[test]
fn decoded_listing_is_the_result() {
    let r = pull_packages(None, None, Some(Event::Decoded(Ok(PackageList { result: vec![] }))));
    match r {
        Pull::Done(Ok(list)) => assert_eq!(list.result.len(), 0),
        other => panic!("unexpected step {:?}", other),
    }
}

#[test]
fn decode_failure_is_a_json_error() {
    let r = pull_packages(None, None, Some(Event::Decoded(Err(json_error()))));
    assert!(matches!(r, Pull::Done(Err(Error::JsonParse(_)))));
}

#[test]
fn transport_failure_is_an_http_error() {
    let r = pull_distributions(None, Some(Event::Failed(transport_error())));
    assert!(matches!(r, Pull::Done(Err(Error::Http(_)))));
}

#[test]
fn package_info_with_one_entry_succeeds() {
    let info = PackageInfo { result: vec![inner()], message: "".to_string() };
    let r = pull_package_info(None, "id".to_string(), Some(Event::Decoded(Ok(info))));
    match r {
        Pull::Done(Ok(i)) => assert_eq!(i.result[0].checksum, "abc123"),
        other => panic!("unexpected step {:?}", other),
    }
}

#[test]
fn package_info_without_entries_is_a_json_error() {
    let info = PackageInfo { result: vec![], message: "".to_string() };
    let r = pull_package_info(None, "id".to_string(), Some(Event::Decoded(Ok(info))));
    assert!(matches!(r, Pull::Done(Err(Error::JsonParse(_)))));
}

#[test]
fn package_info_with_two_entries_is_a_json_error() {
    let info = PackageInfo { result: vec![inner(), inner()], message: "".to_string() };
    let r = pull_package_info(None, "id".to_string(), Some(Event::Decoded(Ok(info))));
    assert!(matches!(r, Pull::Done(Err(Error::JsonParse(_)))));
}

#[test]
fn distribution_info_entry_count_is_checked() {
    let one = DistributionInfo { result: vec![distribution("Zulu")], message: "".to_string() };
    let r = pull_distribution_info(None, "zulu".to_string(), Some(Event::Decoded(Ok(one))));
    match r {
        Pull::Done(Ok(d)) => assert_eq!(d.result[0].name, "Zulu"),
        other => panic!("unexpected step {:?}", other),
    }
    let none = DistributionInfo { result: vec![], message: "".to_string() };
    let r = pull_distribution_info(None, "zulu".to_string(), Some(Event::Decoded(Ok(none))));
    assert!(matches!(r, Pull::Done(Err(Error::JsonParse(_)))));
    let two = DistributionInfo {
        result: vec![distribution("Zulu"), distribution("Temurin")],
        message: "".to_string(),
    };
    let r = pull_distribution_info(None, "zulu".to_string(), Some(Event::Decoded(Ok(two))));
    assert!(matches!(r, Pull::Done(Err(Error::JsonParse(_)))));
}

#[test]
fn info_first_step_gets_the_path() {
    match pull_distribution_info(None, "temurin".to_string(), None) {
        Pull::Get(u) => assert_eq!(u, "https://api.foojay.io/disco/v3.0/distributions/temurin"),
        other => panic!("unexpected step {:?}", other),
    }
}
