use compute_api::{feature_versions, negotiate, ApiVersion, Error, Feature, ServiceInfo, VersionRegistry, V2};

fn range(min: ApiVersion, max: ApiVersion) -> ServiceInfo {
    ServiceInfo { minimum_version: Some(min), current_version: Some(max) }
}

#[test]
fn ordering_compares_major_then_minor() {
    assert!(ApiVersion(2, 19).is_at_most(&ApiVersion(2, 55)));
    assert!(ApiVersion(2, 19).is_at_most(&ApiVersion(2, 19)));
    assert!(!ApiVersion(2, 55).is_at_most(&ApiVersion(2, 19)));
    assert!(ApiVersion(1, 99).is_at_most(&ApiVersion(2, 0)));
    assert!(!ApiVersion(3, 0).is_at_most(&ApiVersion(2, 99)));
}

#[test]
fn supported_range_bounds_are_inclusive() {
    let info = range(ApiVersion(2, 1), ApiVersion(2, 55));
    assert!(info.supports_api_version(ApiVersion(2, 1)));
    assert!(info.supports_api_version(ApiVersion(2, 19)));
    assert!(info.supports_api_version(ApiVersion(2, 55)));
    assert!(!info.supports_api_version(ApiVersion(2, 0)));
    assert!(!info.supports_api_version(ApiVersion(2, 61)));
}

#[test]
fn open_ended_ranges() {
    let no_min = ServiceInfo { minimum_version: None, current_version: Some(ApiVersion(2, 10)) };
    assert!(no_min.supports_api_version(ApiVersion(2, 0)));
    assert!(!no_min.supports_api_version(ApiVersion(2, 11)));
    let no_max = ServiceInfo { minimum_version: Some(ApiVersion(2, 10)), current_version: None };
    assert!(no_max.supports_api_version(ApiVersion(2, 90)));
    assert!(!no_max.supports_api_version(ApiVersion(2, 9)));
    let none = ServiceInfo { minimum_version: None, current_version: None };
    assert!(!none.supports_api_version(ApiVersion(2, 1)));
}

#[test]
fn negotiation_picks_highest_supported_requirement() {
    let info = range(ApiVersion(2, 1), ApiVersion(2, 55));
    assert_eq!(info.pick_api_version(&[ApiVersion(2, 19), ApiVersion(2, 61)]), Some(ApiVersion(2, 19)));
}

#[test]
fn pick_returns_maximum_not_first() {
    let info = range(ApiVersion(2, 1), ApiVersion(2, 55));
    let candidates = [ApiVersion(2, 2), ApiVersion(2, 55), ApiVersion(2, 19), ApiVersion(2, 61)];
    assert_eq!(info.pick_api_version(&candidates), Some(ApiVersion(2, 55)));
    let reordered = [ApiVersion(2, 61), ApiVersion(2, 19), ApiVersion(2, 55), ApiVersion(2, 2)];
    assert_eq!(info.pick_api_version(&reordered), Some(ApiVersion(2, 55)));
}

#[test]
fn pick_with_nothing_supported_is_no_constraint() {
    let info = range(ApiVersion(2, 1), ApiVersion(2, 10));
    assert_eq!(info.pick_api_version(&[ApiVersion(2, 19), ApiVersion(2, 61)]), None);
    assert_eq!(info.pick_api_version(&[]), None);
    let registry = VersionRegistry::with_info(info);
    assert_eq!(registry.pick_compute_api_version(&[ApiVersion(2, 61)]), Ok(None));
}

#[test]
fn unknown_versions_are_a_discovery_error() {
    let registry = VersionRegistry::new();
    assert!(matches!(registry.pick_compute_api_version(&[ApiVersion(2, 1)]), Err(Error::DiscoveryError(_))));
    assert!(matches!(registry.supports_compute_api_version(ApiVersion(2, 1)), Err(Error::DiscoveryError(_))));
    assert!(matches!(V2::supports_keypair_pagination(&registry), Err(Error::DiscoveryError(_))));
}

#[test]
fn registry_keeps_first_metadata() {
    let mut registry = VersionRegistry::new();
    registry.remember(range(ApiVersion(2, 1), ApiVersion(2, 55)));
    registry.remember(range(ApiVersion(2, 1), ApiVersion(2, 90)));
    assert_eq!(registry.info, Some(range(ApiVersion(2, 1), ApiVersion(2, 55))));
    assert_eq!(registry.supports_compute_api_version(ApiVersion(2, 61)), Ok(false));
    assert_eq!(registry.supports_compute_api_version(ApiVersion(2, 55)), Ok(true));
}

#[test]
fn feature_thresholds() {
    let all = [
        Feature::KeypairType,
        Feature::ServerDescription,
        Feature::KeypairPagination,
        Feature::FlavorDescription,
        Feature::FlavorExtraSpecs,
    ];
    assert_eq!(
        feature_versions(&all),
        vec![ApiVersion(2, 2), ApiVersion(2, 19), ApiVersion(2, 35), ApiVersion(2, 55), ApiVersion(2, 61)]
    );
}

#[test]
fn negotiate_over_features() {
    let registry = VersionRegistry::with_info(range(ApiVersion(2, 1), ApiVersion(2, 40)));
    assert_eq!(
        negotiate(&registry, &[Feature::KeypairType, Feature::KeypairPagination]),
        Ok(Some(ApiVersion(2, 35)))
    );
    assert_eq!(negotiate(&registry, &[Feature::FlavorExtraSpecs]), Ok(None));
    assert_eq!(V2::supports_keypair_pagination(&registry), Ok(true));
    assert_eq!(V2::flavor_api_version(&registry), Ok(None));
    let newer = VersionRegistry::with_info(range(ApiVersion(2, 1), ApiVersion(2, 70)));
    assert_eq!(V2::flavor_api_version(&newer), Ok(Some(ApiVersion(2, 61))));
}

#[test]
fn version_text() {
    assert_eq!(ApiVersion(2, 19).to_text(), "2.19");
    assert_eq!(ApiVersion(2, 0).to_text(), "2.0");
    assert_eq!(ApiVersion(10, 105).to_text(), "10.105");
    assert_eq!(ApiVersion(65535, 7).to_text(), "65535.7");
}

#[test]
fn service_type_facts() {
    assert_eq!(V2::catalog_type(), "compute");
    assert!(V2::major_version_supported(ApiVersion(2, 61)));
    assert!(!V2::major_version_supported(ApiVersion(3, 0)));
    let (name, value) = V2::api_version_header(ApiVersion(2, 55));
    assert_eq!(name, "x-openstack-nova-api-version");
    assert_eq!(value, "2.55");
}

#[test]
fn parse_version_text() {
    assert_eq!(ApiVersion::parse("2.19"), Some(ApiVersion(2, 19)));
    assert_eq!(ApiVersion::parse("2.1"), Some(ApiVersion(2, 1)));
    assert_eq!(ApiVersion::parse("10.0"), Some(ApiVersion(10, 0)));
    assert_eq!(ApiVersion::parse("65535.65535"), Some(ApiVersion(65535, 65535)));
    assert_eq!(ApiVersion::parse("2.019"), Some(ApiVersion(2, 19)));
}

#[test]
fn parse_rejects_malformed_text() {
    assert_eq!(ApiVersion::parse(""), None);
    assert_eq!(ApiVersion::parse("2"), None);
    assert_eq!(ApiVersion::parse("2."), None);
    assert_eq!(ApiVersion::parse(".5"), None);
    assert_eq!(ApiVersion::parse("2.5.1"), None);
    assert_eq!(ApiVersion::parse("v2.5"), None);
    assert_eq!(ApiVersion::parse("2.x"), None);
    assert_eq!(ApiVersion::parse("65536.0"), None);
    assert_eq!(ApiVersion::parse("2.99999"), None);
    assert_eq!(ApiVersion::parse("2.1é"), None);
}

#[test]
fn text_reads_back() {
    for v in [ApiVersion(2, 0), ApiVersion(2, 61), ApiVersion(0, 9), ApiVersion(65535, 10)] {
        assert_eq!(ApiVersion::parse(&v.to_text()), Some(v));
    }
}

#[test]
fn service_info_from_advertised_texts() {
    assert_eq!(
        ServiceInfo::from_texts("2.1", "2.55"),
        Ok(ServiceInfo { minimum_version: Some(ApiVersion(2, 1)), current_version: Some(ApiVersion(2, 55)) })
    );
    assert_eq!(
        ServiceInfo::from_texts("", ""),
        Ok(ServiceInfo { minimum_version: None, current_version: None })
    );
    assert_eq!(
        ServiceInfo::from_texts("", "2.10"),
        Ok(ServiceInfo { minimum_version: None, current_version: Some(ApiVersion(2, 10)) })
    );
    assert!(matches!(ServiceInfo::from_texts("2.1", "latest"), Err(Error::DiscoveryError(_))));
    assert!(matches!(ServiceInfo::from_texts("v2", "2.55"), Err(Error::DiscoveryError(_))));
}
