//! A client-side core for a versioned compute API: negotiating which API
//! revision to speak, and resolving a lookup token that may be an identifier
//! or a name into exactly one resource.

pub mod error;
pub mod resolve;
pub mod service;
pub mod version;

pub use error::Error;
pub use resolve::{select_by_name, IdAndName, Resolver, Stage, Step};
pub use service::{feature_versions, negotiate, Feature, Method, Request, V2};
pub use version::{ApiVersion, ServiceInfo, VersionRegistry};
