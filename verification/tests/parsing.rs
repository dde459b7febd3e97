use mirror_fetch::mirror::Mirror;
use mirror_fetch::errors::MirrorListError;
use mirror_fetch::mirror_list::parse_mirror_list;
use mirror_fetch::mirror_list::scan_mirror_list;
use mirror_fetch::package::build_mirror_list_url;
use mirror_fetch::package::build_package_url;
use mirror_fetch::package::PackageSpec;

fn sample_spec() -> PackageSpec {
    PackageSpec {
        name: String::from("linux-firmware-20230919-1"),
        version: String::from("20230919-1"),
        release_tag: String::from("39"),
        arch: String::from("x86_64"),
        package_arch: String::from("noarch"),
    }
}

#[test]
fn package_url_exact() {
    let mirror = Mirror::from_base_url(String::from("http://m.example.org/fedora"));
    let url = build_package_url(&mirror, &sample_spec());
    assert_eq!(
        url,
        "http://m.example.org/fedora/Packages/l/linux-firmware-20230919-1.fc39.noarch.rpm"
    );
}

#[test]
fn package_url_bucket_keeps_case() {
    let mirror = Mirror::from_base_url(String::from("http://m"));
    let mut spec = sample_spec();
    spec.name = String::from("NetworkManager-1.44.2-1");
    let url = build_package_url(&mirror, &spec);
    assert_eq!(url, "http://m/Packages/N/NetworkManager-1.44.2-1.fc39.noarch.rpm");
}

#[test]
fn package_url_deterministic() {
    let mirror = Mirror::from_base_url(String::from("https://mirror.example.net/pub"));
    let a = build_package_url(&mirror, &sample_spec());
    let b = build_package_url(&mirror, &sample_spec());
    assert_eq!(a, b);
}

#[test]
fn mirror_list_url_exact() {
    let url = build_mirror_list_url(&sample_spec());
    assert_eq!(
        url,
        "https://mirrors.fedoraproject.org/mirrorlist?repo=fedora-39&arch=x86_64"
    );
}

#[test]
fn parse_keeps_http_lines_in_order() {
    let body = "#comment\n\nhttp://a/\nhttp://b/\nftp://c/";
    let scan = parse_mirror_list(body).unwrap();
    let urls: Vec<&str> = scan.mirrors.iter().map(|m| m.base_url.as_str()).collect();
    assert_eq!(urls, vec!["http://a/", "http://b/"]);
    assert_eq!(scan.comments, vec!["#comment"]);
}

#[test]
fn parse_accepts_https_lines() {
    let body = "https://secure.example.org/\nhttp://plain.example.org/";
    let scan = parse_mirror_list(body).unwrap();
    let urls: Vec<&str> = scan.mirrors.iter().map(|m| m.base_url.as_str()).collect();
    assert_eq!(urls, vec!["https://secure.example.org/", "http://plain.example.org/"]);
}

#[test]
fn parse_all_invalid_is_no_mirrors() {
    let body = "ftp://c/\n# just metadata\n\nmirror without scheme";
    match parse_mirror_list(body) {
        Err(MirrorListError::NoMirrorsAvailable) => {}
        other => panic!("expected NoMirrorsAvailable, got {:?}", other.map(|s| s.comments)),
    }
}

#[test]
fn parse_empty_body_is_no_mirrors() {
    match parse_mirror_list("") {
        Err(MirrorListError::NoMirrorsAvailable) => {}
        _ => panic!("expected NoMirrorsAvailable"),
    }
}

#[test]
fn parse_ignores_trailing_newline() {
    let scan = parse_mirror_list("http://a/\n").unwrap();
    let urls: Vec<&str> = scan.mirrors.iter().map(|m| m.base_url.as_str()).collect();
    assert_eq!(urls, vec!["http://a/"]);
}

#[test]
fn scan_derives_hosts() {
    let scan = scan_mirror_list("http://example.com/pub/fedora/\nhttp:bad target\n");
    assert_eq!(scan.mirrors.len(), 2);
    assert_eq!(scan.mirrors[0].host.as_deref(), Some("example.com"));
    assert_eq!(scan.mirrors[1].host, None);
}

#[test]
fn mirror_host_comes_from_url_parsing() {
    let m = Mirror::from_base_url(String::from("https://dl.fedoraproject.org/pub/fedora/"));
    assert_eq!(m.base_url, "https://dl.fedoraproject.org/pub/fedora/");
    assert_eq!(m.host.as_deref(), Some("dl.fedoraproject.org"));
    let bad = Mirror::from_base_url(String::from("not a url at all"));
    assert_eq!(bad.host, None);
}
