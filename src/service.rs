//! The compute service, API version 2: its catalog entry, the API versions
//! that unlock optional features, and the requests each operation makes.

use vstd::prelude::*;

use crate::error::Error;
use crate::version::{ApiVersion, VersionRegistry};

verus! {

/// An optional feature of the compute API, unlocked from some API version on.
#[derive(PartialEq, Eq, Structural, Clone, Copy, Debug)]
pub enum Feature {
    /// The type field of key pairs.
    KeypairType,
    /// The description field of servers.
    ServerDescription,
    /// Pagination of key pair listings.
    KeypairPagination,
    /// The description field of flavors.
    FlavorDescription,
    /// Extra specs embedded in flavors.
    FlavorExtraSpecs,
}

impl Feature {
    /// The first API version that offers the feature.
    pub open spec fn since(self) -> ApiVersion {
        match self {
            Feature::KeypairType => ApiVersion(2, 2),
            Feature::ServerDescription => ApiVersion(2, 19),
            Feature::KeypairPagination => ApiVersion(2, 35),
            Feature::FlavorDescription => ApiVersion(2, 55),
            Feature::FlavorExtraSpecs => ApiVersion(2, 61),
        }
    }

    /// The first API version that offers the feature.
    pub fn min_version(self) -> (r: ApiVersion)
        ensures
            r == self.since(),
    {
        match self {
            Feature::KeypairType => ApiVersion(2, 2),
            Feature::ServerDescription => ApiVersion(2, 19),
            Feature::KeypairPagination => ApiVersion(2, 35),
            Feature::FlavorDescription => ApiVersion(2, 55),
            Feature::FlavorExtraSpecs => ApiVersion(2, 61),
        }
    }
}

/// The API versions that unlock `features`, in their order.
pub open spec fn versions_of(features: Seq<Feature>) -> Seq<ApiVersion> {
    features.map_values(|f: Feature| f.since())
}

/// The API versions that unlock `features`, in their order.
pub fn feature_versions(features: &[Feature]) -> (r: Vec<ApiVersion>)
    ensures
        r@ == versions_of(features@),
{
    let mut r: Vec<ApiVersion> = Vec::new();
    let mut i: usize = 0;
    while i < features.len()
        invariant
            i <= features.len(),
            r@ == versions_of(features@.subrange(0, i as int)),
        decreases features.len() - i,
    {
        r.push(features[i].min_version());
        i = i + 1;
        assert(r@ =~= versions_of(features@.subrange(0, i as int)));
    }
    assert(features@.subrange(0, features.len() as int) =~= features@);
    r
}

/// The highest API version, among those that unlock `features`, that the
/// service supports; `None` where it supports none of them, a
/// `DiscoveryError` where its versions are unknown.
pub fn negotiate(registry: &VersionRegistry, features: &[Feature]) -> (r: Result<Option<ApiVersion>, Error>)
    ensures
        r is Err <==> registry.info is None,
        r is Err ==> r->Err_0 is DiscoveryError,
        r matches Ok(p) ==> registry.info->0.is_best_pick(versions_of(features@), p),
{
    let versions = feature_versions(features);
    registry.pick_compute_api_version(versions.as_slice())
}

/// The HTTP method of a request.
#[derive(PartialEq, Eq, Structural, Clone, Copy, Debug)]
pub enum Method {
    Get,
    Post,
    Delete,
}

/// A request to the compute service, before transport: the method, the path
/// below the service's base URL, an exact-name filter for listings, and the
/// API version to announce in its header, if any.
#[derive(Clone, Debug, PartialEq, Eq)]
pub struct Request {
    pub method: Method,
    pub path: Vec<String>,
    pub name_query: Option<String>,
    pub version: Option<ApiVersion>,
}

impl Request {
    /// The path segments as text.
    pub open spec fn segments(self) -> Seq<Seq<char>> {
        self.path@.map_values(|s: String| s@)
    }
}

/// The service type of the compute API, version 2.
#[derive(Clone, Copy, Debug, PartialEq, Eq)]
pub struct V2;

impl V2 {
    /// The request that creates a key pair, and whether the key type field
    /// may be sent with it. The field goes only where the service supports
    /// the version that brought it, and then that version is announced; the
    /// service's versions are asked for only where a key type is given.
    pub fn create_keypair_request(registry: &VersionRegistry, has_key_type: bool) -> (r: Result<
        (Request, bool),
        Error,
    >)
        ensures
            r is Err <==> has_key_type && registry.info is None,
            r is Err ==> r->Err_0 is DiscoveryError,
            r matches Ok((q, with_type)) ==> {
                &&& q.method == Method::Post
                &&& q.segments() == seq!["os-keypairs"@]
                &&& q.name_query is None
                &&& with_type == (has_key_type && registry.info->0.accepts(Feature::KeypairType.since()))
                &&& q.version == (if with_type {
                    Some(Feature::KeypairType.since())
                } else {
                    None
                })
            },
    {
        let with_type = if has_key_type {
            match registry.supports_compute_api_version(Feature::KeypairType.min_version()) {
                Ok(b) => b,
                Err(e) => {
                    return Err(e);
                },
            }
        } else {
            false
        };
        let version = if with_type {
            Some(Feature::KeypairType.min_version())
        } else {
            None
        };
        let path = vec![String::from_str("os-keypairs")];
        let r = Request { method: Method::Post, path, name_query: None, version };
        assert(r.segments() =~= seq!["os-keypairs"@]);
        Ok((r, with_type))
    }

    /// The request that creates a server.
    pub fn create_server_request() -> (r: Request)
        ensures
            r.method == Method::Post,
            r.segments() == seq!["servers"@],
            r.name_query is None,
            r.version is None,
    {
        let path = vec![String::from_str("servers")];
        let r = Request { method: Method::Post, path, name_query: None, version: None };
        assert(r.segments() =~= seq!["servers"@]);
        r
    }

    /// The request that deletes the key pair `name`.
    pub fn delete_keypair_request(name: &str) -> (r: Request)
        ensures
            r.method == Method::Delete,
            r.segments() == seq!["os-keypairs"@, name@],
            r.name_query is None,
            r.version is None,
    {
        let path = vec![String::from_str("os-keypairs"), name.to_owned()];
        let r = Request { method: Method::Delete, path, name_query: None, version: None };
        assert(r.segments() =~= seq!["os-keypairs"@, name@]);
        r
    }

    /// The request that deletes the server `id`.
    pub fn delete_server_request(id: &str) -> (r: Request)
        ensures
            r.method == Method::Delete,
            r.segments() == seq!["servers"@, id@],
            r.name_query is None,
            r.version is None,
    {
        let path = vec![String::from_str("servers"), id.to_owned()];
        let r = Request { method: Method::Delete, path, name_query: None, version: None };
        assert(r.segments() =~= seq!["servers"@, id@]);
        r
    }

    /// The request that fetches the extra specs of the flavor `id`.
    pub fn extra_specs_request(id: &str) -> (r: Request)
        ensures
            r.method == Method::Get,
            r.segments() == seq!["flavors"@, id@, "os-extra_specs"@],
            r.name_query is None,
            r.version is None,
    {
        let path = vec![String::from_str("flavors"), id.to_owned(), String::from_str("os-extra_specs")];
        let r = Request { method: Method::Get, path, name_query: None, version: None };
        assert(r.segments() =~= seq!["flavors"@, id@, "os-extra_specs"@]);
        r
    }

    /// The request that lists flavors in summary.
    pub fn flavor_listing_request() -> (r: Request)
        ensures
            r.method == Method::Get,
            r.segments() == seq!["flavors"@],
            r.name_query is None,
            r.version is None,
    {
        let path = vec![String::from_str("flavors")];
        let r = Request { method: Method::Get, path, name_query: None, version: None };
        assert(r.segments() =~= seq!["flavors"@]);
        r
    }

    /// The request that lists servers in summary.
    pub fn server_listing_request() -> (r: Request)
        ensures
            r.method == Method::Get,
            r.segments() == seq!["servers"@],
            r.name_query is None,
            r.version is None,
    {
        let path = vec![String::from_str("servers")];
        let r = Request { method: Method::Get, path, name_query: None, version: None };
        assert(r.segments() =~= seq!["servers"@]);
        r
    }

    /// The request that runs an action on the server `id`.
    pub fn server_action_request(id: &str) -> (r: Request)
        ensures
            r.method == Method::Post,
            r.segments() == seq!["servers"@, id@, "action"@],
            r.name_query is None,
            r.version is None,
    {
        let path = vec![String::from_str("servers"), id.to_owned(), String::from_str("action")];
        let r = Request { method: Method::Post, path, name_query: None, version: None };
        assert(r.segments() =~= seq!["servers"@, id@, "action"@]);
        r
    }

    /// The request that fetches the flavor `id`, at the best version for flavor fields.
    pub fn flavor_request(registry: &VersionRegistry, id: &str) -> (r: Result<Request, Error>)
        ensures
            r is Err <==> registry.info is None,
            r is Err ==> r->Err_0 is DiscoveryError,
            r matches Ok(q) ==> {
                &&& q.method == Method::Get
                &&& q.segments() == seq!["flavors"@, id@]
                &&& q.name_query is None
                &&& registry.info->0.is_best_pick(
                    seq![Feature::FlavorDescription.since(), Feature::FlavorExtraSpecs.since()],
                    q.version,
                )
            },
    {
        let version = match Self::flavor_api_version(registry) {
            Ok(v) => v,
            Err(e) => {
                return Err(e);
            },
        };
        let path = vec![String::from_str("flavors"), id.to_owned()];
        let r = Request { method: Method::Get, path, name_query: None, version };
        assert(r.segments() =~= seq!["flavors"@, id@]);
        Ok(r)
    }

    /// The request that lists flavors in detail.
    pub fn flavor_detail_listing_request(registry: &VersionRegistry) -> (r: Result<Request, Error>)
        ensures
            r is Err <==> registry.info is None,
            r is Err ==> r->Err_0 is DiscoveryError,
            r matches Ok(q) ==> {
                &&& q.method == Method::Get
                &&& q.segments() == seq!["flavors"@, "detail"@]
                &&& q.name_query is None
                &&& registry.info->0.is_best_pick(seq![Feature::FlavorExtraSpecs.since()], q.version)
            },
    {
        let features = [Feature::FlavorExtraSpecs];
        assert(features@ =~= seq![Feature::FlavorExtraSpecs]);
        let version = match negotiate(registry, features.as_slice()) {
            Ok(v) => v,
            Err(e) => {
                return Err(e);
            },
        };
        assert(versions_of(seq![Feature::FlavorExtraSpecs]) =~= seq![Feature::FlavorExtraSpecs.since()]);
        let path = vec![String::from_str("flavors"), String::from_str("detail")];
        let r = Request { method: Method::Get, path, name_query: None, version };
        assert(r.segments() =~= seq!["flavors"@, "detail"@]);
        Ok(r)
    }

    /// The request that fetches the key pair `name`.
    pub fn keypair_request(registry: &VersionRegistry, name: &str) -> (r: Result<Request, Error>)
        ensures
            r is Err <==> registry.info is None,
            r is Err ==> r->Err_0 is DiscoveryError,
            r matches Ok(q) ==> {
                &&& q.method == Method::Get
                &&& q.segments() == seq!["os-keypairs"@, name@]
                &&& q.name_query is None
                &&& registry.info->0.is_best_pick(seq![Feature::KeypairType.since()], q.version)
            },
    {
        let features = [Feature::KeypairType];
        assert(features@ =~= seq![Feature::KeypairType]);
        let version = match negotiate(registry, features.as_slice()) {
            Ok(v) => v,
            Err(e) => {
                return Err(e);
            },
        };
        assert(versions_of(seq![Feature::KeypairType]) =~= seq![Feature::KeypairType.since()]);
        let path = vec![String::from_str("os-keypairs"), name.to_owned()];
        let r = Request { method: Method::Get, path, name_query: None, version };
        assert(r.segments() =~= seq!["os-keypairs"@, name@]);
        Ok(r)
    }

    /// The request that lists key pairs.
    pub fn keypair_listing_request(registry: &VersionRegistry) -> (r: Result<Request, Error>)
        ensures
            r is Err <==> registry.info is None,
            r is Err ==> r->Err_0 is DiscoveryError,
            r matches Ok(q) ==> {
                &&& q.method == Method::Get
                &&& q.segments() == seq!["os-keypairs"@]
                &&& q.name_query is None
                &&& registry.info->0.is_best_pick(seq![Feature::KeypairType.since(), Feature::KeypairPagination.since()], q.version)
            },
    {
        let features = [Feature::KeypairType, Feature::KeypairPagination];
        assert(features@ =~= seq![Feature::KeypairType, Feature::KeypairPagination]);
        let version = match negotiate(registry, features.as_slice()) {
            Ok(v) => v,
            Err(e) => {
                return Err(e);
            },
        };
        assert(versions_of(seq![Feature::KeypairType, Feature::KeypairPagination]) =~= seq![Feature::KeypairType.since(), Feature::KeypairPagination.since()]);
        let path = vec![String::from_str("os-keypairs")];
        let r = Request { method: Method::Get, path, name_query: None, version };
        assert(r.segments() =~= seq!["os-keypairs"@]);
        Ok(r)
    }

    /// The request that fetches the server `id`.
    pub fn server_request(registry: &VersionRegistry, id: &str) -> (r: Result<Request, Error>)
        ensures
            r is Err <==> registry.info is None,
            r is Err ==> r->Err_0 is DiscoveryError,
            r matches Ok(q) ==> {
                &&& q.method == Method::Get
                &&& q.segments() == seq!["servers"@, id@]
                &&& q.name_query is None
                &&& registry.info->0.is_best_pick(seq![Feature::ServerDescription.since()], q.version)
            },
    {
        let features = [Feature::ServerDescription];
        assert(features@ =~= seq![Feature::ServerDescription]);
        let version = match negotiate(registry, features.as_slice()) {
            Ok(v) => v,
            Err(e) => {
                return Err(e);
            },
        };
        assert(versions_of(seq![Feature::ServerDescription]) =~= seq![Feature::ServerDescription.since()]);
        let path = vec![String::from_str("servers"), id.to_owned()];
        let r = Request { method: Method::Get, path, name_query: None, version };
        assert(r.segments() =~= seq!["servers"@, id@]);
        Ok(r)
    }

    /// The request that lists servers in detail.
    pub fn server_detail_listing_request(registry: &VersionRegistry) -> (r: Result<Request, Error>)
        ensures
            r is Err <==> registry.info is None,
            r is Err ==> r->Err_0 is DiscoveryError,
            r matches Ok(q) ==> {
                &&& q.method == Method::Get
                &&& q.segments() == seq!["servers"@, "detail"@]
                &&& q.name_query is None
                &&& registry.info->0.is_best_pick(seq![Feature::ServerDescription.since()], q.version)
            },
    {
        let features = [Feature::ServerDescription];
        assert(features@ =~= seq![Feature::ServerDescription]);
        let version = match negotiate(registry, features.as_slice()) {
            Ok(v) => v,
            Err(e) => {
                return Err(e);
            },
        };
        assert(versions_of(seq![Feature::ServerDescription]) =~= seq![Feature::ServerDescription.since()]);
        let path = vec![String::from_str("servers"), String::from_str("detail")];
        let r = Request { method: Method::Get, path, name_query: None, version };
        assert(r.segments() =~= seq!["servers"@, "detail"@]);
        Ok(r)
    }

    /// The request that lists the servers named `name`, filtered by the
    /// service; the caller still keeps only exact matches.
    pub fn server_name_listing_request(name: &str) -> (r: Request)
        ensures
            r.method == Method::Get,
            r.segments() == seq!["servers"@],
            r.name_query matches Some(q) && q@ == name@,
            r.version is None,
    {
        let path = vec![String::from_str("servers")];
        let r = Request { method: Method::Get, path, name_query: Some(name.to_owned()), version: None };
        assert(r.segments() =~= seq!["servers"@]);
        r
    }

    /// The catalog type under which the service is found.
    pub fn catalog_type() -> (r: &'static str)
        ensures
            r@ == "compute"@,
    {
        "compute"
    }

    /// Whether a major API version is the one this service type speaks.
    pub fn major_version_supported(version: ApiVersion) -> (r: bool)
        ensures
            r == (version.0 == 2),
    {
        version.0 == 2
    }

    /// The header that announces `version` on a request: its name and value.
    pub fn api_version_header(version: ApiVersion) -> (r: (String, String))
        ensures
            r.0@ == "x-openstack-nova-api-version"@,
            r.1@ == version.text(),
    {
        (String::from_str("x-openstack-nova-api-version"), version.to_text())
    }

    /// The API version for requests on a single flavor.
    pub fn flavor_api_version(registry: &VersionRegistry) -> (r: Result<Option<ApiVersion>, Error>)
        ensures
            r is Err <==> registry.info is None,
            r is Err ==> r->Err_0 is DiscoveryError,
            r matches Ok(p) ==> registry.info->0.is_best_pick(
                seq![Feature::FlavorDescription.since(), Feature::FlavorExtraSpecs.since()],
                p,
            ),
    {
        let r = negotiate(registry, &[Feature::FlavorDescription, Feature::FlavorExtraSpecs]);
        assert(versions_of(seq![Feature::FlavorDescription, Feature::FlavorExtraSpecs]) =~= seq![
            Feature::FlavorDescription.since(),
            Feature::FlavorExtraSpecs.since(),
        ]);
        r
    }

    /// Whether the service paginates key pair listings.
    pub fn supports_keypair_pagination(registry: &VersionRegistry) -> (r: Result<bool, Error>)
        ensures
            r is Err <==> registry.info is None,
            r is Err ==> r->Err_0 is DiscoveryError,
            r matches Ok(b) ==> b == registry.info->0.accepts(Feature::KeypairPagination.since()),
    {
        registry.supports_compute_api_version(Feature::KeypairPagination.min_version())
    }
}

} // verus!
