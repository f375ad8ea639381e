//! The Black Duck REST API: its records, its errors, and the requests the
//! client builds.
pub mod client;
pub mod error;
pub mod types;

pub use client::BlackDuckClient;
pub use error::{ApiError, HttpErrorInfo};
pub use types::{
    AuthToken, BomComponent, ComponentLicense, ComponentsResponse, LicenseInfo, Link, Meta,
    Project, ProjectVersion, ProjectsResponse, RiskCount, RiskCountEntry, RiskProfile,
    VersionsResponse, VulnerabilitiesResponse, Vulnerability, VulnerabilityDetail,
};
