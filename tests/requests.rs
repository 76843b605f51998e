use compute_api::{ApiVersion, Error, Method, Request, ServiceInfo, VersionRegistry, V2};

fn path(r: &Request) -> Vec<&str> {
    r.path.iter().map(|s| s.as_str()).collect()
}

fn registry(max: ApiVersion) -> VersionRegistry {
    VersionRegistry::with_info(ServiceInfo { minimum_version: Some(ApiVersion(2, 1)), current_version: Some(max) })
}

#[test]
fn keypair_creation_announces_type_version_only_where_supported() {
    let (with, sent) = V2::create_keypair_request(&registry(ApiVersion(2, 10)), true).unwrap();
    assert_eq!(with.method, Method::Post);
    assert_eq!(path(&with), vec!["os-keypairs"]);
    assert_eq!(with.version, Some(ApiVersion(2, 2)));
    assert!(sent);

    let (old, sent) = V2::create_keypair_request(&registry(ApiVersion(2, 1)), true).unwrap();
    assert_eq!(old.version, None);
    assert!(!sent);

    let (plain, sent) = V2::create_keypair_request(&registry(ApiVersion(2, 10)), false).unwrap();
    assert_eq!(plain.version, None);
    assert!(!sent);
}

#[test]
fn keypair_creation_asks_versions_only_for_key_type() {
    let unknown = VersionRegistry::new();
    assert!(matches!(V2::create_keypair_request(&unknown, true), Err(Error::DiscoveryError(_))));
    let (plain, sent) = V2::create_keypair_request(&unknown, false).unwrap();
    assert_eq!((path(&plain), plain.version, sent), (vec!["os-keypairs"], None, false));
}

#[test]
fn unversioned_requests() {
    let r = V2::create_server_request();
    assert_eq!((r.method, path(&r), r.version), (Method::Post, vec!["servers"], None));
    let r = V2::delete_keypair_request("mykey");
    assert_eq!((r.method, path(&r)), (Method::Delete, vec!["os-keypairs", "mykey"]));
    let r = V2::delete_server_request("abc");
    assert_eq!((r.method, path(&r)), (Method::Delete, vec!["servers", "abc"]));
    let r = V2::extra_specs_request("f1");
    assert_eq!((r.method, path(&r)), (Method::Get, vec!["flavors", "f1", "os-extra_specs"]));
    let r = V2::server_action_request("abc");
    assert_eq!((r.method, path(&r)), (Method::Post, vec!["servers", "abc", "action"]));
    assert_eq!(path(&V2::flavor_listing_request()), vec!["flavors"]);
    assert_eq!(path(&V2::server_listing_request()), vec!["servers"]);
    let r = V2::server_name_listing_request("web-1");
    assert_eq!(path(&r), vec!["servers"]);
    assert_eq!(r.name_query, Some("web-1".to_string()));
}

#[test]
fn versioned_requests_take_best_supported_version() {
    let reg = registry(ApiVersion(2, 58));
    let r = V2::flavor_request(&reg, "f1").unwrap();
    assert_eq!((r.method, path(&r), r.version), (Method::Get, vec!["flavors", "f1"], Some(ApiVersion(2, 55))));
    let r = V2::flavor_detail_listing_request(&reg).unwrap();
    assert_eq!((path(&r), r.version), (vec!["flavors", "detail"], None));
    let r = V2::keypair_request(&reg, "k").unwrap();
    assert_eq!((path(&r), r.version), (vec!["os-keypairs", "k"], Some(ApiVersion(2, 2))));
    let r = V2::keypair_listing_request(&reg).unwrap();
    assert_eq!((path(&r), r.version), (vec!["os-keypairs"], Some(ApiVersion(2, 35))));
    let r = V2::server_request(&reg, "abc").unwrap();
    assert_eq!((path(&r), r.version), (vec!["servers", "abc"], Some(ApiVersion(2, 19))));
    let r = V2::server_detail_listing_request(&reg).unwrap();
    assert_eq!((path(&r), r.version), (vec!["servers", "detail"], Some(ApiVersion(2, 19))));
}

#[test]
fn versioned_requests_need_known_versions() {
    let reg = VersionRegistry::new();
    assert!(matches!(V2::flavor_request(&reg, "f1"), Err(Error::DiscoveryError(_))));
    assert!(matches!(V2::server_request(&reg, "abc"), Err(Error::DiscoveryError(_))));
    assert!(matches!(V2::keypair_listing_request(&reg), Err(Error::DiscoveryError(_))));
}
