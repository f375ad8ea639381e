//! Records returned by the Black Duck REST API, as plain values.
//!
//! JSON (de)serialisation of these records happens at the program's edge;
//! the library only reads and carries them.
use vstd::prelude::*;

verus! {

/// The bearer token handed out by the authentication endpoint.
#[derive(Debug)]
pub struct AuthToken {
    pub bearer_token: String,
    pub expires_in_milliseconds: u64,
}

/// A hyperlink attached to an API resource.
#[derive(Debug, Default)]
pub struct Link {
    pub rel: String,
    pub href: String,
}

impl Clone for Link {
    fn clone(&self) -> (r: Self)
        ensures
            r == *self,
    {
        Link { rel: self.rel.clone(), href: self.href.clone() }
    }
}

/// The contents of an optional list, when there is one.
pub open spec fn opt_seq<T>(o: Option<Vec<T>>) -> Option<Seq<T>> {
    match o {
        Some(v) => Some(v@),
        None => None,
    }
}

/// The `_meta` block of a resource: its canonical href and related links.
#[derive(Debug, Default)]
pub struct Meta {
    pub href: String,
    pub links: Option<Vec<Link>>,
}

impl Meta {
    /// `self` and `other` hold the same href and the same links.
    pub open spec fn same_as(self, other: Meta) -> bool {
        self.href == other.href && opt_seq(self.links) == opt_seq(other.links)
    }
}

impl Clone for Meta {
    fn clone(&self) -> (r: Self)
        ensures
            r.same_as(*self),
    {
        let links = match &self.links {
            Some(v) => Some(v.clone()),
            None => None,
        };
        Meta { href: self.href.clone(), links }
    }
}

/// Two optional `_meta` blocks are both absent, or both present and the same.
pub open spec fn same_meta(a: Option<Meta>, b: Option<Meta>) -> bool {
    match (a, b) {
        (Some(x), Some(y)) => x.same_as(y),
        (None, None) => true,
        _ => false,
    }
}

/// The href of an optional `_meta` block.
pub open spec fn meta_href(m: Option<Meta>) -> Option<Seq<char>> {
    match m {
        Some(x) => Some(x.href@),
        None => None,
    }
}

fn clone_opt_string(o: &Option<String>) -> (r: Option<String>)
    ensures
        r == *o,
{
    match o {
        Some(s) => Some(s.clone()),
        None => None,
    }
}

fn clone_opt_meta(o: &Option<Meta>) -> (r: Option<Meta>)
    ensures
        same_meta(r, *o),
{
    match o {
        Some(m) => Some(m.clone()),
        None => None,
    }
}

fn href_of(meta: &Option<Meta>) -> (r: Option<&str>)
    ensures
        r is Some <==> meta is Some,
        r is Some ==> r->0@ == meta->0.href@,
{
    match meta {
        Some(m) => Some(m.href.as_str()),
        None => None,
    }
}

/// A Black Duck project.
#[derive(Debug, Default)]
pub struct Project {
    pub name: String,
    pub description: Option<String>,
    pub project_level_adjustments: Option<bool>,
    pub clone_categories: Option<Vec<String>>,
    pub meta: Option<Meta>,
}

impl Project {
    /// `self` is a field-by-field copy of `other` (lists by their contents).
    pub open spec fn same_as(self, other: Project) -> bool {
        &&& self.name == other.name
        &&& self.description == other.description
        &&& self.project_level_adjustments == other.project_level_adjustments
        &&& opt_seq(self.clone_categories) == opt_seq(other.clone_categories)
        &&& same_meta(self.meta, other.meta)
    }

    /// The canonical href of the project, from its `_meta` link.
    pub open spec fn href_spec(self) -> Option<Seq<char>> {
        meta_href(self.meta)
    }

    /// Returns the canonical href for this project from its `_meta` link.
    pub fn href(&self) -> (r: Option<&str>)
        ensures
            r is Some <==> self.meta is Some,
            r is Some ==> Some(r->0@) == self.href_spec(),
    {
        href_of(&self.meta)
    }
}

impl Clone for Project {
    fn clone(&self) -> (r: Self)
        ensures
            r.same_as(*self),
    {
        let clone_categories = match &self.clone_categories {
            Some(v) => Some(v.clone()),
            None => None,
        };
        Project {
            name: self.name.clone(),
            description: clone_opt_string(&self.description),
            project_level_adjustments: self.project_level_adjustments,
            clone_categories,
            meta: clone_opt_meta(&self.meta),
        }
    }
}

/// One page of projects.
#[derive(Debug)]
pub struct ProjectsResponse {
    pub total_count: u64,
    pub items: Vec<Project>,
}

/// The risk profile of a version; `categories` holds the JSON text of the
/// per-category counts exactly as the server sent them.
#[derive(Debug, Default)]
pub struct RiskProfile {
    pub categories: Option<String>,
}

/// A version of a project.
#[derive(Debug, Default)]
pub struct ProjectVersion {
    pub version_name: String,
    pub phase: Option<String>,
    pub distribution: Option<String>,
    pub release_comments: Option<String>,
    pub released_on: Option<String>,
    pub created_at: Option<String>,
    pub risk_profile: Option<RiskProfile>,
    pub meta: Option<Meta>,
}

impl ProjectVersion {
    /// `self` is a field-by-field copy of `other` (lists by their contents).
    pub open spec fn same_as(self, other: ProjectVersion) -> bool {
        &&& self.version_name == other.version_name
        &&& self.phase == other.phase
        &&& self.distribution == other.distribution
        &&& self.release_comments == other.release_comments
        &&& self.released_on == other.released_on
        &&& self.created_at == other.created_at
        &&& self.risk_profile == other.risk_profile
        &&& same_meta(self.meta, other.meta)
    }

    /// The canonical href of the version, from its `_meta` link.
    pub open spec fn href_spec(self) -> Option<Seq<char>> {
        meta_href(self.meta)
    }

    /// Returns the canonical href for this version from its `_meta` link.
    pub fn href(&self) -> (r: Option<&str>)
        ensures
            r is Some <==> self.meta is Some,
            r is Some ==> Some(r->0@) == self.href_spec(),
    {
        href_of(&self.meta)
    }
}

impl Clone for ProjectVersion {
    fn clone(&self) -> (r: Self)
        ensures
            r.same_as(*self),
    {
        let risk_profile = match &self.risk_profile {
            Some(p) => Some(RiskProfile { categories: clone_opt_string(&p.categories) }),
            None => None,
        };
        ProjectVersion {
            version_name: self.version_name.clone(),
            phase: clone_opt_string(&self.phase),
            distribution: clone_opt_string(&self.distribution),
            release_comments: clone_opt_string(&self.release_comments),
            released_on: clone_opt_string(&self.released_on),
            created_at: clone_opt_string(&self.created_at),
            risk_profile,
            meta: clone_opt_meta(&self.meta),
        }
    }
}

/// One page of project versions.
#[derive(Debug)]
pub struct VersionsResponse {
    pub total_count: u64,
    pub items: Vec<ProjectVersion>,
}

/// A license named inside a component license entry.
#[derive(Debug, Clone, Default)]
pub struct LicenseInfo {
    pub name: Option<String>,
    pub spdx_id: Option<String>,
}

/// A license entry of a BOM component.
#[derive(Debug, Clone, Default)]
pub struct ComponentLicense {
    pub license_type: Option<String>,
    pub licenses: Option<Vec<LicenseInfo>>,
    pub spdx_id: Option<String>,
    pub license_name: Option<String>,
}

/// One risk bucket (e.g. `"HIGH"`) and how many findings fall into it.
#[derive(Debug, Clone, Default)]
pub struct RiskCountEntry {
    pub count_type: String,
    pub count: u64,
}

/// Risk counts per bucket.
#[derive(Debug, Clone, Default)]
pub struct RiskCount {
    pub counts: Option<Vec<RiskCountEntry>>,
}

/// An entry of a version's bill of materials.
#[derive(Debug, Clone, Default)]
pub struct BomComponent {
    pub component_name: String,
    pub component_version_name: Option<String>,
    pub ignored: Option<bool>,
    pub review_status: Option<String>,
    pub approval_status: Option<String>,
    /// Overall policy status for this BOM entry (e.g. `"IN_VIOLATION"`, `"NOT_IN_VIOLATION"`).
    pub policy_status: Option<String>,
    pub usages: Option<Vec<String>>,
    pub licenses: Option<Vec<ComponentLicense>>,
    pub security_risk_profile: Option<RiskCount>,
    pub license_risk_profile: Option<RiskCount>,
    pub operational_risk_profile: Option<RiskCount>,
    pub meta: Option<Meta>,
}

/// One page of BOM components.
#[derive(Debug)]
pub struct ComponentsResponse {
    pub total_count: u64,
    pub items: Vec<BomComponent>,
}

/// The vulnerability record attached to a vulnerable BOM entry.
///
/// CVSS scores are carried as the IEEE-754 bit patterns of the `f64`
/// values the server reported; the library never computes with them.
#[derive(Debug, Clone, Default)]
pub struct VulnerabilityDetail {
    pub vulnerability_name: String,
    pub description: Option<String>,
    pub severity: Option<String>,
    pub cvss2_severity: Option<String>,
    pub cvss3_severity: Option<String>,
    pub cvss2_score_bits: Option<u64>,
    pub cvss3_score_bits: Option<u64>,
    pub remediation_status: Option<String>,
    pub remediation_comment: Option<String>,
    pub published_date: Option<String>,
    pub updated_date: Option<String>,
}

/// A vulnerable BOM entry.
#[derive(Debug, Clone, Default)]
pub struct Vulnerability {
    pub vulnerability_with_remediation: Option<VulnerabilityDetail>,
    pub component_name: Option<String>,
    pub component_version_name: Option<String>,
    pub meta: Option<Meta>,
}

/// One page of vulnerable BOM entries.
#[derive(Debug)]
pub struct VulnerabilitiesResponse {
    pub total_count: u64,
    pub items: Vec<Vulnerability>,
}

} // verus!
