//! Application state: navigation screens, list selections, search and
//! filters, and the filtered views of the loaded lists.
use vstd::prelude::*;
use crate::api::types::{BomComponent, Project, ProjectVersion, Vulnerability};
use crate::config::Config;
use crate::selection::{
    clamp_selection, clamp_to, kept_indices, lemma_clamp, lemma_kept_all, lemma_kept_indices,
};
use crate::text::{contains_str, has_substring, lowercase, str_eq, to_lowercase};

verus! {

/// Which panel is currently focused
#[derive(Debug, Clone, Copy, PartialEq, Eq, Structural)]
pub enum Focus {
    Left,
    Right,
}

/// The current "screen" / navigation level
#[derive(Debug, Clone, Copy, PartialEq, Eq, Structural)]
pub enum Screen {
    Login,
    Projects,
    Versions,
    Components,
    Vulnerabilities,
    PolicyViolations,
}

/// Right panel tab selection (when inside a version)
#[derive(Debug, Clone, Copy, PartialEq, Eq, Structural)]
pub enum VersionTab {
    Components,
    Vulnerabilities,
    PolicyViolations,
}

/// The tab after `t`, cycling.
pub open spec fn tab_after(t: VersionTab) -> VersionTab {
    match t {
        VersionTab::Components => VersionTab::Vulnerabilities,
        VersionTab::Vulnerabilities => VersionTab::PolicyViolations,
        VersionTab::PolicyViolations => VersionTab::Components,
    }
}

/// The tab before `t`, cycling.
pub open spec fn tab_before(t: VersionTab) -> VersionTab {
    match t {
        VersionTab::Components => VersionTab::PolicyViolations,
        VersionTab::Vulnerabilities => VersionTab::Components,
        VersionTab::PolicyViolations => VersionTab::Vulnerabilities,
    }
}

impl VersionTab {
    pub fn next(self) -> (r: Self)
        ensures
            r == tab_after(self),
    {
        match self {
            Self::Components => Self::Vulnerabilities,
            Self::Vulnerabilities => Self::PolicyViolations,
            Self::PolicyViolations => Self::Components,
        }
    }

    pub fn prev(self) -> (r: Self)
        ensures
            r == tab_before(self),
    {
        match self {
            Self::Components => Self::PolicyViolations,
            Self::Vulnerabilities => Self::Components,
            Self::PolicyViolations => Self::Vulnerabilities,
        }
    }

    pub fn title(self) -> (r: &'static str)
        ensures
            r@ == match self {
                VersionTab::Components => "Components"@,
                VersionTab::Vulnerabilities => "Vulnerabilities"@,
                VersionTab::PolicyViolations => "Policy Violations"@,
            },
    {
        match self {
            Self::Components => "Components",
            Self::Vulnerabilities => "Vulnerabilities",
            Self::PolicyViolations => "Policy Violations",
        }
    }
}

/// Stepping forward and then back through the tabs returns to the start,
/// and so does stepping back and then forward.
pub proof fn lemma_tab_cycle_inverse(t: VersionTab)
    ensures
        tab_before(tab_after(t)) == t,
        tab_after(tab_before(t)) == t,
{
}

/// Three steps forward through the tabs return to the start.
pub proof fn lemma_tab_cycle_period(t: VersionTab)
    ensures
        tab_after(tab_after(tab_after(t))) == t,
        tab_after(t) != t,
{
}

// ---------------------------------------------------------------------------
// Filter state
// ---------------------------------------------------------------------------
/// Which field is being edited in the filter popup
#[derive(Debug, Clone, Copy, PartialEq, Eq, Structural)]
pub enum FilterField {
    PolicyStatus,
    ReviewStatus,
    ApprovalStatus,
    PolicyRuleName,
}

/// The filter field at row `i` of the popup (rows cycle every four).
pub open spec fn field_at(i: int) -> FilterField {
    let r = i % 4;
    if r == 0 {
        FilterField::PolicyStatus
    } else if r == 1 {
        FilterField::ReviewStatus
    } else if r == 2 {
        FilterField::ApprovalStatus
    } else {
        FilterField::PolicyRuleName
    }
}

/// The row of a filter field in the popup.
pub open spec fn field_row(f: FilterField) -> int {
    match f {
        FilterField::PolicyStatus => 0,
        FilterField::ReviewStatus => 1,
        FilterField::ApprovalStatus => 2,
        FilterField::PolicyRuleName => 3,
    }
}

impl FilterField {
    pub const ALL: [Self; 4] = [
        Self::PolicyStatus,
        Self::ReviewStatus,
        Self::ApprovalStatus,
        Self::PolicyRuleName,
    ];

    pub fn label(self) -> (r: &'static str)
        ensures
            r@ == match self {
                FilterField::PolicyStatus => "Policy Status"@,
                FilterField::ReviewStatus => "Review Status"@,
                FilterField::ApprovalStatus => "Approval Status"@,
                FilterField::PolicyRuleName => "Policy Rule Name"@,
            },
    {
        match self {
            Self::PolicyStatus => "Policy Status",
            Self::ReviewStatus => "Review Status",
            Self::ApprovalStatus => "Approval Status",
            Self::PolicyRuleName => "Policy Rule Name",
        }
    }

    /// Known static option values for each filter field.
    /// `PolicyRuleName` returns an empty slice — options are populated dynamically from the API.
    pub fn options(self) -> (r: &'static [&'static str])
        ensures
            self == FilterField::PolicyStatus ==> r@.len() == 3 && r@[0]@ == "IN_VIOLATION"@
                && r@[1]@ == "IN_VIOLATION_OVERRIDDEN"@ && r@[2]@ == "NOT_IN_VIOLATION"@,
            self == FilterField::ReviewStatus ==> r@.len() == 4 && r@[0]@ == "UNREVIEWED"@
                && r@[1]@ == "REVIEWED"@ && r@[2]@ == "DYNAMIC"@ && r@[3]@ == "MANUAL"@,
            self == FilterField::ApprovalStatus ==> r@.len() == 3 && r@[0]@ == "APPROVED"@
                && r@[1]@ == "REJECTED"@ && r@[2]@ == "PENDING"@,
            self == FilterField::PolicyRuleName ==> r@.len() == 0,
    {
        match self {
            Self::PolicyStatus => &["IN_VIOLATION", "IN_VIOLATION_OVERRIDDEN", "NOT_IN_VIOLATION"],
            Self::ReviewStatus => &["UNREVIEWED", "REVIEWED", "DYNAMIC", "MANUAL"],
            Self::ApprovalStatus => &["APPROVED", "REJECTED", "PENDING"],
            Self::PolicyRuleName => &[],
        }
    }

    pub fn next(self) -> (r: Self)
        ensures
            r == field_at(field_row(self) + 1),
    {
        match self {
            Self::PolicyStatus => Self::ReviewStatus,
            Self::ReviewStatus => Self::ApprovalStatus,
            Self::ApprovalStatus => Self::PolicyRuleName,
            Self::PolicyRuleName => Self::PolicyStatus,
        }
    }

    pub fn prev(self) -> (r: Self)
        ensures
            r == field_at(field_row(self) + 3),
    {
        match self {
            Self::PolicyStatus => Self::PolicyRuleName,
            Self::ReviewStatus => Self::PolicyStatus,
            Self::ApprovalStatus => Self::ReviewStatus,
            Self::PolicyRuleName => Self::ApprovalStatus,
        }
    }
}

/// The field after a field's successor is not the field itself, and
/// stepping forward then back is the identity.
pub proof fn lemma_field_cycle_inverse(f: FilterField)
    ensures
        field_at(field_row(field_at(field_row(f) + 1)) + 3) == f,
        field_at(field_row(field_at(field_row(f) + 3)) + 1) == f,
        field_at(field_row(f)) == f,
{
}

/// The contents of a list of strings.
pub open spec fn texts(v: Seq<String>) -> Seq<Seq<char>> {
    v.map_values(|s: String| s@)
}

/// The contents of an optional string, or the empty string.
pub open spec fn or_empty(o: Option<String>) -> Seq<char> {
    match o {
        Some(s) => s@,
        None => seq![],
    }
}

/// A set of accepted values lets `value` through: it is empty (no
/// restriction), or holds `value`.
pub open spec fn allows(set: Seq<String>, value: Seq<char>) -> bool {
    set.len() == 0 || texts(set).contains(value)
}

/// Position of the first occurrence of `x` in `s`, or -1 when absent.
pub open spec fn first_index<A>(s: Seq<A>, x: A) -> int
    decreases s.len(),
{
    if s.len() == 0 {
        -1
    } else if s[0] == x {
        0
    } else {
        let r = first_index(s.drop_first(), x);
        if r < 0 {
            -1
        } else {
            r + 1
        }
    }
}

/// `first_index` finds the first occurrence, and only an absent value
/// has none.
pub proof fn lemma_first_index<A>(s: Seq<A>, x: A)
    ensures
        -1 <= first_index(s, x) < s.len(),
        first_index(s, x) == -1 <==> !s.contains(x),
        first_index(s, x) >= 0 ==> s[first_index(s, x)] == x,
        forall|k: int| 0 <= k < first_index(s, x) ==> s[k] != x,
    decreases s.len(),
{
    if s.len() > 0 {
        lemma_first_index(s.drop_first(), x);
        if s[0] != x {
            if s.contains(x) {
                let j = choose|j: int| 0 <= j < s.len() && s[j] == x;
                assert(s.drop_first()[j - 1] == x);
            }
            assert forall|k: int| 0 <= k < first_index(s, x) implies s[k] != x by {
                if k > 0 {
                    assert(s[k] == s.drop_first()[k - 1]);
                }
            }
        }
    }
}

/// The first occurrence is at `i` when `s[i]` is `x` and no earlier
/// element is.
pub proof fn lemma_first_index_at<A>(s: Seq<A>, x: A, i: int)
    requires
        0 <= i < s.len(),
        s[i] == x,
        forall|k: int| 0 <= k < i ==> s[k] != x,
    ensures
        first_index(s, x) == i,
    decreases s.len(),
{
    if i > 0 {
        assert forall|k: int| 0 <= k < i - 1 implies s.drop_first()[k] != x by {
            assert(s.drop_first()[k] == s[k + 1]);
        }
        lemma_first_index_at(s.drop_first(), x, i - 1);
    }
}

/// A list of values with `v` toggled: its first occurrence removed, or
/// `v` appended when absent.
pub open spec fn toggled(set: Seq<Seq<char>>, v: Seq<char>) -> Seq<Seq<char>> {
    let i = first_index(set, v);
    if i >= 0 {
        set.remove(i)
    } else {
        set.push(v)
    }
}

/// Toggling a value that is absent twice leaves the list as it was.
pub proof fn lemma_toggle_twice_restores(set: Seq<Seq<char>>, v: Seq<char>)
    requires
        !set.contains(v),
    ensures
        toggled(toggled(set, v), v) == set,
{
    lemma_first_index(set, v);
    let once = set.push(v);
    assert(once[set.len() as int] == v);
    assert forall|k: int| 0 <= k < set.len() implies once[k] != v by {
        assert(once[k] == set[k]);
    }
    lemma_first_index_at(once, v, set.len() as int);
    assert(once.remove(set.len() as int) =~= set);
}

/// Toggling flips membership of a value that occurs at most once.
pub proof fn lemma_toggle_flips_membership(set: Seq<Seq<char>>, v: Seq<char>)
    requires
        forall|i: int, j: int| 0 <= i < set.len() && 0 <= j < set.len() && set[i] == v && set[j]
            == v ==> i == j,
    ensures
        toggled(set, v).contains(v) <==> !set.contains(v),
{
    lemma_first_index(set, v);
    let p = first_index(set, v);
    if p >= 0 {
        let t = set.remove(p);
        assert forall|k: int| 0 <= k < t.len() implies t[k] != v by {
            if k < p {
                assert(t[k] == set[k]);
            } else {
                assert(t[k] == set[k + 1]);
            }
        }
    } else {
        assert(set.push(v)[set.len() as int] == v);
    }
}

/// Active filter values applied to component lists
#[derive(Debug, Clone)]
pub struct ComponentFilter {
    /// If non-empty, only components whose `policy_status` is in this set are shown.
    pub policy_statuses: Vec<String>,
    /// If non-empty, only components whose `review_status` is in this set are shown.
    pub review_statuses: Vec<String>,
    /// If non-empty, only components whose `approval_status` is in this set are shown.
    pub approval_statuses: Vec<String>,
    /// If non-empty, filter by policy rule IDs (for server-side filtering).
    /// This is sent to the API as `filter=policyRuleViolation:ID`.
    pub rule_ids: Vec<String>,
}

impl Default for ComponentFilter {
    fn default() -> (r: Self)
        ensures
            r.is_empty_spec(),
    {
        ComponentFilter {
            policy_statuses: Vec::new(),
            review_statuses: Vec::new(),
            approval_statuses: Vec::new(),
            rule_ids: Vec::new(),
        }
    }
}

/// The values `set` holds, each prefixed.
pub open spec fn prefixed(set: Seq<String>, prefix: Seq<char>) -> Seq<Seq<char>> {
    texts(set).map_values(|s: Seq<char>| prefix + s)
}

/// The contents of an optional status, or the empty string.
fn status_or_empty(o: &Option<String>) -> (r: &str)
    ensures
        r@ == or_empty(*o),
{
    match o {
        Some(s) => s.as_str(),
        None => {
            proof {
                reveal_strlit("");
            }
            assert(""@ =~= Seq::<char>::empty());
            ""
        },
    }
}

/// Whether `set` holds a string equal to `value`.
fn holds_text(set: &Vec<String>, value: &str) -> (b: bool)
    ensures
        b == texts(set@).contains(value@),
{
    let mut i: usize = 0;
    while i < set.len()
        invariant
            i <= set@.len(),
            forall|k: int| 0 <= k < i ==> set@[k]@ != value@,
        decreases set@.len() - i,
    {
        if str_eq(set[i].as_str(), value) {
            assert(texts(set@)[i as int] == value@);
            return true;
        }
        i = i + 1;
    }
    assert forall|k: int| 0 <= k < texts(set@).len() implies texts(set@)[k] != value@ by {
        assert(texts(set@)[k] == set@[k]@);
    }
    false
}

/// The contents of a list of query parameters.
pub open spec fn param_views(r: Seq<(&'static str, String)>) -> Seq<(Seq<char>, Seq<char>)> {
    r.map_values(|p: (&'static str, String)| (p.0@, p.1@))
}

/// `filter=` parameters carrying the given values.
pub open spec fn filter_pairs(vals: Seq<Seq<char>>) -> Seq<(Seq<char>, Seq<char>)> {
    vals.map_values(|v: Seq<char>| ("filter"@, v))
}

fn push_params(params: &mut Vec<(&'static str, String)>, set: &Vec<String>, prefix: &str)
    ensures
        param_views(final(params)@) == param_views(old(params)@) + filter_pairs(
            prefixed(set@, prefix@),
        ),
{
    let mut i: usize = 0;
    assert(param_views(params@) =~= param_views(old(params)@) + filter_pairs(
        prefixed(set@.take(0), prefix@),
    ));
    while i < set.len()
        invariant
            i <= set@.len(),
            param_views(params@) == param_views(old(params)@) + filter_pairs(
                prefixed(set@.take(i as int), prefix@),
            ),
        decreases set@.len() - i,
    {
        let value = crate::text::concat(prefix, set[i].as_str());
        let ghost before = params@;
        params.push(("filter", value));
        assert(param_views(params@) =~= param_views(before).push(("filter"@, value@)));
        assert(filter_pairs(prefixed(set@.take(i + 1), prefix@)) =~= filter_pairs(
            prefixed(set@.take(i as int), prefix@),
        ).push(("filter"@, prefix@ + set@[i as int]@)));
        i = i + 1;
    }
    assert(set@.take(set@.len() as int) =~= set@);
}

impl ComponentFilter {
    /// No criterion is active.
    pub open spec fn is_empty_spec(self) -> bool {
        &&& self.policy_statuses@.len() == 0
        &&& self.review_statuses@.len() == 0
        &&& self.approval_statuses@.len() == 0
        &&& self.rule_ids@.len() == 0
    }

    /// How many of the four criteria are active.
    pub open spec fn active_count_spec(self) -> nat {
        (if self.policy_statuses@.len() > 0 { 1nat } else { 0nat }) + (if self.review_statuses@.len()
            > 0 {
            1nat
        } else {
            0nat
        }) + (if self.approval_statuses@.len() > 0 { 1nat } else { 0nat }) + (
        if self.rule_ids@.len() > 0 {
            1nat
        } else {
            0nat
        })
    }

    /// The component passes the review- and approval-status criteria.
    pub open spec fn admits_review_approval(self, c: BomComponent) -> bool {
        &&& allows(self.review_statuses@, or_empty(c.review_status))
        &&& allows(self.approval_statuses@, or_empty(c.approval_status))
    }

    /// The component passes all three status criteria (rule IDs are
    /// applied by the server, not here).
    pub open spec fn admits(self, c: BomComponent) -> bool {
        &&& allows(self.policy_statuses@, or_empty(c.policy_status))
        &&& self.admits_review_approval(c)
    }

    /// The `filter=` parameter values for the active criteria, in order:
    /// policy statuses, review statuses, approval statuses, rule IDs.
    pub open spec fn api_param_values(self) -> Seq<Seq<char>> {
        prefixed(self.policy_statuses@, "policyStatus:"@) + prefixed(
            self.review_statuses@,
            "reviewStatus:"@,
        ) + prefixed(self.approval_statuses@, "approvalStatus:"@) + prefixed(
            self.rule_ids@,
            "policyRuleViolation:"@,
        )
    }

    pub fn is_empty(&self) -> (r: bool)
        ensures
            r == self.is_empty_spec(),
    {
        self.policy_statuses.is_empty() && self.review_statuses.is_empty()
            && self.approval_statuses.is_empty() && self.rule_ids.is_empty()
    }

    /// Number of active filter criteria (for badge display).
    pub fn active_count(&self) -> (r: usize)
        ensures
            r == self.active_count_spec(),
    {
        let a: usize = if self.policy_statuses.is_empty() { 0 } else { 1 };
        let b: usize = if self.review_statuses.is_empty() { 0 } else { 1 };
        let c: usize = if self.approval_statuses.is_empty() { 0 } else { 1 };
        let d: usize = if self.rule_ids.is_empty() { 0 } else { 1 };
        a + b + c + d
    }

    /// Toggle a value in a filter set (add if absent, remove if present).
    pub fn toggle(set: &mut Vec<String>, value: &str)
        ensures
            texts(final(set)@) == toggled(texts(old(set)@), value@),
    {
        let ghost before = texts(set@);
        let mut i: usize = 0;
        while i < set.len()
            invariant
                i <= set@.len(),
                set@ == old(set)@,
                before == texts(old(set)@),
                forall|k: int| 0 <= k < i ==> before[k] != value@,
            decreases set@.len() - i,
        {
            if str_eq(set[i].as_str(), value) {
                proof {
                    lemma_first_index_at(before, value@, i as int);
                }
                set.remove(i);
                assert(texts(set@) =~= before.remove(i as int));
                return ;
            }
            i = i + 1;
        }
        proof {
            lemma_first_index(before, value@);
            if before.contains(value@) {
                let j = choose|j: int| 0 <= j < before.len() && before[j] == value@;
                assert(before[j] != value@);
            }
        }
        set.push(String::from_str(value));
        assert(texts(set@) =~= before.push(value@));
    }

    /// Build Black Duck API `filter=` query params from the active filter state.
    ///
    /// Returns a list of `("filter", "fieldName:VALUE")` pairs suitable for
    /// appending to a request URL, including policy rule violation IDs.
    pub fn to_api_params(&self) -> (r: Vec<(&'static str, String)>)
        ensures
            param_views(r@) == filter_pairs(self.api_param_values()),
    {
        let mut params: Vec<(&'static str, String)> = Vec::new();
        push_params(&mut params, &self.policy_statuses, "policyStatus:");
        push_params(&mut params, &self.review_statuses, "reviewStatus:");
        push_params(&mut params, &self.approval_statuses, "approvalStatus:");
        push_params(&mut params, &self.rule_ids, "policyRuleViolation:");
        let ghost a = prefixed(self.policy_statuses@, "policyStatus:"@);
        let ghost b = prefixed(self.review_statuses@, "reviewStatus:"@);
        let ghost c = prefixed(self.approval_statuses@, "approvalStatus:"@);
        let ghost d = prefixed(self.rule_ids@, "policyRuleViolation:"@);
        assert(param_views(Seq::<(&'static str, String)>::empty()) =~= Seq::empty());
        assert(filter_pairs(a + b + c + d) =~= filter_pairs(a) + filter_pairs(b) + filter_pairs(c)
            + filter_pairs(d));
        assert(Seq::<(Seq<char>, Seq<char>)>::empty() + filter_pairs(a) =~= filter_pairs(a));
        params
    }

    /// Returns true if `component` passes all active filters.
    /// Note: `rule_ids` filtering is done server-side via API, so not checked here.
    pub fn matches(&self, c: &BomComponent) -> (r: bool)
        ensures
            r == self.admits(*c),
    {
        if !self.policy_statuses.is_empty() {
            let status = status_or_empty(&c.policy_status);
            if !holds_text(&self.policy_statuses, status) {
                return false;
            }
        }
        self.matches_review_approval(c)
    }

    /// Returns true if `component` passes the review- and approval-status
    /// criteria.
    pub fn matches_review_approval(&self, c: &BomComponent) -> (r: bool)
        ensures
            r == self.admits_review_approval(*c),
    {
        if !self.review_statuses.is_empty() {
            let status = status_or_empty(&c.review_status);
            if !holds_text(&self.review_statuses, status) {
                return false;
            }
        }
        if !self.approval_statuses.is_empty() {
            let status = status_or_empty(&c.approval_status);
            if !holds_text(&self.approval_statuses, status) {
                return false;
            }
        }
        true
    }
}

/// A filter with no active criterion lets every component through.
pub proof fn lemma_empty_filter_admits_all(f: ComponentFilter, c: BomComponent)
    requires
        f.is_empty_spec(),
    ensures
        f.admits(c),
        f.active_count_spec() == 0,
{
}

/// Values within one criterion are alternatives: a component that a filter
/// admits is still admitted after more values are added to a non-empty
/// set of accepted policy statuses.
pub proof fn law_more_values_admit_more(f: ComponentFilter, g: ComponentFilter, c: BomComponent)
    requires
        f.admits(c),
        f.policy_statuses@.len() > 0,
        forall|v: Seq<char>|
            texts(f.policy_statuses@).contains(v) ==> texts(g.policy_statuses@).contains(v),
        texts(g.review_statuses@) == texts(f.review_statuses@),
        texts(g.approval_statuses@) == texts(f.approval_statuses@),
    ensures
        g.admits(c),
{
    let v = or_empty(c.policy_status);
    assert(texts(g.policy_statuses@).contains(v));
    assert(g.review_statuses@.len() == texts(g.review_statuses@).len());
    assert(f.review_statuses@.len() == texts(f.review_statuses@).len());
    assert(g.approval_statuses@.len() == texts(g.approval_statuses@).len());
    assert(f.approval_statuses@.len() == texts(f.approval_statuses@).len());
}

/// State for the filter popup overlay
#[derive(Debug, Clone, Copy, PartialEq, Eq, Structural)]
pub struct FilterPopup {
    pub open: bool,
    /// Which filter field row is currently highlighted
    pub focused_field: usize,
    /// Within the focused field, which option row is highlighted
    pub focused_option: usize,
}

impl Default for FilterPopup {
    fn default() -> (r: Self)
        ensures
            r == (FilterPopup { open: false, focused_field: 0, focused_option: 0 }),
    {
        FilterPopup { open: false, focused_field: 0, focused_option: 0 }
    }
}

impl FilterPopup {
    pub fn current_field(&self) -> (r: FilterField)
        ensures
            r == field_at(self.focused_field as int),
    {
        let i = self.focused_field % 4;
        if i == 0 {
            FilterField::PolicyStatus
        } else if i == 1 {
            FilterField::ReviewStatus
        } else if i == 2 {
            FilterField::ApprovalStatus
        } else {
            FilterField::PolicyRuleName
        }
    }

    pub fn move_field_down(&mut self)
        requires
            old(self).focused_field < usize::MAX,
        ensures
            *final(self) == (FilterPopup {
                focused_field: ((old(self).focused_field + 1) % 4) as usize,
                focused_option: 0,
                ..*old(self)
            }),
    {
        self.focused_field = (self.focused_field + 1) % 4;
        self.focused_option = 0;
    }

    pub fn move_field_up(&mut self)
        requires
            old(self).focused_field + 4 <= usize::MAX,
        ensures
            *final(self) == (FilterPopup {
                focused_field: ((old(self).focused_field + 3) % 4) as usize,
                focused_option: 0,
                ..*old(self)
            }),
    {
        self.focused_field = (self.focused_field + 4 - 1) % 4;
        self.focused_option = 0;
    }

    pub fn move_option_down(&mut self, options_count: usize)
        requires
            options_count > 0 ==> old(self).focused_option < usize::MAX,
        ensures
            options_count == 0 ==> *final(self) == *old(self),
            options_count > 0 ==> *final(self) == (FilterPopup {
                focused_option: ((old(self).focused_option + 1) % (options_count as int)) as usize,
                ..*old(self)
            }),
    {
        if options_count == 0 {
            return ;
        }
        self.focused_option = (self.focused_option + 1) % options_count;
    }

    pub fn move_option_up(&mut self, options_count: usize)
        requires
            options_count > 0 ==> old(self).focused_option + options_count <= usize::MAX,
        ensures
            options_count == 0 ==> *final(self) == *old(self),
            options_count > 0 ==> *final(self) == (FilterPopup {
                focused_option: ((old(self).focused_option + options_count - 1) % (
                options_count as int)) as usize,
                ..*old(self)
            }),
    {
        if options_count == 0 {
            return ;
        }
        self.focused_option = (self.focused_option + options_count - 1) % options_count;
    }
}

/// Moving the focused option down and then up returns to the same option,
/// whenever the focused option is one of the field's options.
pub proof fn lemma_option_down_up(o: int, n: int)
    requires
        0 <= o < n,
    ensures
        ((o + 1) % n + n - 1) % n == o,
        ((o + n - 1) % n + 1) % n == o,
{
    if o + 1 < n {
        assert((o + 1) % n == o + 1) by (nonlinear_arith)
            requires
                0 <= o + 1 < n,
        ;
        assert((o + 1 + n - 1) % n == o) by (nonlinear_arith)
            requires
                0 <= o < n,
        ;
    } else {
        assert((o + 1) % n == 0) by (nonlinear_arith)
            requires
                o + 1 == n,
                n > 0,
        ;
        assert((n - 1) % n == o) by (nonlinear_arith)
            requires
                o == n - 1,
                n > 0,
        ;
    }
    if o > 0 {
        assert((o + n - 1) % n == o - 1) by (nonlinear_arith)
            requires
                0 < o < n,
        ;
        assert((o - 1 + 1) % n == o) by (nonlinear_arith)
            requires
                0 < o < n,
        ;
    } else {
        assert((o + n - 1) % n == n - 1) by (nonlinear_arith)
            requires
                o == 0,
                n > 0,
        ;
        assert((n - 1 + 1) % n == 0) by (nonlinear_arith)
            requires
                n > 0,
        ;
    }
}

// ---------------------------------------------------------------------------
// AppEvent
// ---------------------------------------------------------------------------
/// Messages sent from background work to the main loop
#[derive(Debug)]
pub enum AppEvent {
    ProjectsLoaded { items: Vec<Project>, total: u64, offset: u32 },
    VersionsLoaded { items: Vec<ProjectVersion>, total: u64, offset: u32 },
    ComponentsLoaded { items: Vec<BomComponent>, total: u64, offset: u32 },
    VulnerabilitiesLoaded { items: Vec<Vulnerability>, total: u64, offset: u32 },
    PolicyViolationsLoaded { items: Vec<BomComponent>, total: u64, offset: u32 },
    /// Policy rules fetched for all in-violation components of the current version.
    /// Each tuple contains (`display_name`, `rule_id`).
    PolicyRulesLoaded(Vec<(String, String)>),
    AuthSuccess,
    Error(String),
}

// ---------------------------------------------------------------------------
// StatefulList
// ---------------------------------------------------------------------------
/// Stateful list helper
#[derive(Debug)]
pub struct StatefulList<T> {
    pub items: Vec<T>,
    pub selected: usize,
}

impl<T> Default for StatefulList<T> {
    fn default() -> (r: Self)
        ensures
            r.items@.len() == 0,
            r.selected == 0,
    {
        StatefulList { items: Vec::new(), selected: 0 }
    }
}

impl<T> StatefulList<T> {
    /// The list is empty and nothing but the first row is selected.
    pub open spec fn is_cleared(self) -> bool {
        self.items@.len() == 0 && self.selected == 0
    }

    pub fn new(items: Vec<T>) -> (r: Self)
        ensures
            r.items == items,
            r.selected == 0,
    {
        StatefulList { items, selected: 0 }
    }

    pub fn selected_item(&self) -> (r: Option<&T>)
        ensures
            self.selected < self.items@.len() ==> (r matches Some(x) && *x
                == self.items@[self.selected as int]),
            self.selected >= self.items@.len() ==> r is None,
    {
        if self.selected < self.items.len() {
            Some(&self.items[self.selected])
        } else {
            None
        }
    }

    pub fn is_empty(&self) -> (r: bool)
        ensures
            r == (self.items@.len() == 0),
    {
        self.items.is_empty()
    }
}


// ---------------------------------------------------------------------------
// Search predicates
// ---------------------------------------------------------------------------
/// The lower-cased `field` contains the (already lower-cased) query `q`.
pub open spec fn text_hit(field: Seq<char>, q: Seq<char>) -> bool {
    has_substring(lowercase(field), q)
}

/// A project is listed under the query `q`.
pub open spec fn project_shown(q: Seq<char>, p: Project) -> bool {
    q.len() == 0 || text_hit(p.name@, q)
}

/// A version is listed under the query `q`.
pub open spec fn version_shown(q: Seq<char>, v: ProjectVersion) -> bool {
    q.len() == 0 || text_hit(v.version_name@, q)
}

/// A component matches the query `q` by its name or version name.
pub open spec fn component_text_shown(q: Seq<char>, c: BomComponent) -> bool {
    q.len() == 0 || text_hit(c.component_name@, q) || text_hit(or_empty(c.component_version_name), q)
}

/// The lower-cased vulnerability name, or the empty string when there is
/// no vulnerability record.
pub open spec fn folded_vulnerability_name(v: Vulnerability) -> Seq<char> {
    match v.vulnerability_with_remediation {
        Some(d) => lowercase(d.vulnerability_name@),
        None => seq![],
    }
}

/// A vulnerable entry is listed under the query `q`.
pub open spec fn vulnerability_shown(q: Seq<char>, v: Vulnerability) -> bool {
    q.len() == 0 || has_substring(folded_vulnerability_name(v), q) || text_hit(
        or_empty(v.component_name),
        q,
    )
}

/// `rows` lists, in order, the positions `vis` of `items` together with
/// the items at those positions.
pub open spec fn lists_rows<T>(rows: Seq<(usize, &T)>, items: Seq<T>, vis: Seq<int>) -> bool {
    &&& rows.len() == vis.len()
    &&& forall|k: int|
        0 <= k < rows.len() ==> (#[trigger] rows[k]).0 as int == vis[k] && *rows[k].1
            == items[vis[k]]
}

/// The positions of `rows`.
pub open spec fn row_positions<T>(rows: Seq<(usize, &T)>) -> Seq<usize> {
    rows.map_values(|r: (usize, &T)| r.0)
}

fn text_hit_exec(field: &str, q: &str) -> (b: bool)
    ensures
        b == text_hit(field@, q@),
{
    let folded = to_lowercase(field);
    contains_str(folded.as_str(), q)
}

fn rows_where<'a, T>(
    items: &'a Vec<T>,
    flags: &Vec<bool>,
    Ghost(keep): Ghost<spec_fn(T) -> bool>,
) -> (r: Vec<(usize, &'a T)>)
    requires
        flags@.len() == items@.len(),
        forall|k: int| 0 <= k < items@.len() ==> flags@[k] == keep(#[trigger] items@[k]),
    ensures
        lists_rows(r@, items@, kept_indices(items@, keep)),
{
    let mut rows: Vec<(usize, &'a T)> = Vec::new();
    let mut i: usize = 0;
    while i < items.len()
        invariant
            i <= items@.len(),
            flags@.len() == items@.len(),
            forall|k: int| 0 <= k < items@.len() ==> flags@[k] == keep(#[trigger] items@[k]),
            lists_rows(rows@, items@, kept_indices(items@.take(i as int), keep)),
        decreases items@.len() - i,
    {
        let ghost pre = items@.take(i as int);
        assert(items@.take(i + 1).drop_last() =~= pre);
        assert(items@.take(i + 1).last() == items@[i as int]);
        if flags[i] {
            rows.push((i, &items[i]));
        }
        i = i + 1;
    }
    assert(items@.take(items@.len() as int) =~= items@);
    rows
}

pub(crate) fn positions<T>(rows: &Vec<(usize, &T)>) -> (r: Vec<usize>)
    ensures
        r@ == row_positions(rows@),
{
    let mut out: Vec<usize> = Vec::new();
    let mut i: usize = 0;
    while i < rows.len()
        invariant
            i <= rows@.len(),
            out@ == row_positions(rows@).take(i as int),
        decreases rows@.len() - i,
    {
        out.push(rows[i].0);
        i = i + 1;
        assert(out@ =~= row_positions(rows@).take(i as int));
    }
    assert(row_positions(rows@).take(rows@.len() as int) =~= row_positions(rows@));
    out
}

/// The positions listed by rows that list `vis` are `vis`.
pub(crate) proof fn lemma_row_positions<T>(rows: Seq<(usize, &T)>, items: Seq<T>, vis: Seq<int>)
    requires
        lists_rows(rows, items, vis),
    ensures
        crate::selection::as_ints(row_positions(rows)) == vis,
{
    assert(crate::selection::as_ints(row_positions(rows)) =~= vis);
}

// ---------------------------------------------------------------------------
// App
// ---------------------------------------------------------------------------
/// Main application state
pub struct App {
    pub config: Config,
    pub screen: Screen,
    pub focus: Focus,
    // Login form
    pub login_url_input: String,
    pub login_token_input: String,
    /// 0 = URL field, 1 = token field
    pub login_active_field: usize,
    pub login_error: Option<String>,
    // Data lists
    pub projects: StatefulList<Project>,
    pub projects_total: u64,
    pub projects_offset: u32,
    pub versions: StatefulList<ProjectVersion>,
    pub versions_total: u64,
    pub versions_offset: u32,
    pub components: StatefulList<BomComponent>,
    pub components_total: u64,
    pub components_offset: u32,
    pub vulnerabilities: StatefulList<Vulnerability>,
    pub vulnerabilities_total: u64,
    pub vulnerabilities_offset: u32,
    pub policy_violations: StatefulList<BomComponent>,
    pub policy_violations_total: u64,
    pub policy_violations_offset: u32,
    // Currently selected parent context
    pub selected_project: Option<Project>,
    pub selected_version: Option<ProjectVersion>,
    // Active tab in version detail view
    pub version_tab: VersionTab,
    // Loading / status
    pub loading: bool,
    pub status_message: Option<String>,
    pub error_message: Option<String>,
    // Quit flag
    pub should_quit: bool,
    // Search / filter
    pub search_input: String,
    pub search_active: bool,
    // Filter popup
    pub filter: ComponentFilter,
    pub filter_popup: FilterPopup,
    /// Deduplicated list of violated policy rules available for filtering.
    /// Each tuple contains (`display_name`, `rule_id`).
    pub available_policy_rules: Vec<(String, String)>,
}

/// The screen the application opens on: the project list when a server URL
/// and an API token are configured, the login form otherwise.
pub open spec fn start_screen(config: Config) -> Screen {
    if config.server.url@.len() > 0 && config.server.api_token is Some {
        Screen::Projects
    } else {
        Screen::Login
    }
}

/// `new` is `old` after navigating back one level: from the version
/// list to the project list, from a version's tabs to the version list
/// (with lists, counts, filters and offered policy rules cleared), and
/// nowhere from the login form or the project list. Messages are cleared.
pub open spec fn back_step(old: App, new: App) -> bool {
    if old.screen == Screen::Login || old.screen == Screen::Projects {
        new == (App { status_message: None, error_message: None, ..old })
    } else if old.screen == Screen::Versions {
        &&& new == (App {
            screen: Screen::Projects,
            selected_project: None,
            versions: new.versions,
            versions_total: 0,
            versions_offset: 0,
            focus: Focus::Left,
            status_message: None,
            error_message: None,
            ..old
        })
        &&& new.versions.is_cleared()
    } else {
        &&& new == (App {
            screen: Screen::Versions,
            selected_version: None,
            components: new.components,
            components_total: 0,
            components_offset: 0,
            vulnerabilities: new.vulnerabilities,
            vulnerabilities_total: 0,
            vulnerabilities_offset: 0,
            policy_violations: new.policy_violations,
            policy_violations_total: 0,
            policy_violations_offset: 0,
            filter: new.filter,
            filter_popup: FilterPopup { open: false, focused_field: 0, focused_option: 0 },
            available_policy_rules: new.available_policy_rules,
            focus: Focus::Left,
            status_message: None,
            error_message: None,
            ..old
        })
        &&& new.components.is_cleared()
        &&& new.vulnerabilities.is_cleared()
        &&& new.policy_violations.is_cleared()
        &&& new.filter.is_empty_spec()
        &&& new.available_policy_rules@.len() == 0
    }
}

/// `app` with the component and policy violation cursors clamped to their
/// filtered views (see `clamp_to`).
pub open spec fn clamped_selection(app: App) -> App {
    App {
        components: StatefulList {
            selected: clamp_to(app.visible_components(), app.components.selected as int) as usize,
            ..app.components
        },
        policy_violations: StatefulList {
            selected: clamp_to(
                app.visible_policy_violations(),
                app.policy_violations.selected as int,
            ) as usize,
            ..app.policy_violations
        },
        ..app
    }
}

impl App {
    /// The lower-cased search text every list is matched against.
    pub open spec fn query(self) -> Seq<char> {
        lowercase(self.search_input@)
    }

    /// Positions of the projects the search lets through.
    pub open spec fn visible_projects(self) -> Seq<int> {
        kept_indices(self.projects.items@, |p: Project| project_shown(self.query(), p))
    }

    /// Positions of the versions the search lets through.
    pub open spec fn visible_versions(self) -> Seq<int> {
        kept_indices(self.versions.items@, |v: ProjectVersion| version_shown(self.query(), v))
    }

    /// A component is shown on the components tab.
    pub open spec fn component_shown(self, c: BomComponent) -> bool {
        component_text_shown(self.query(), c) && self.filter.admits(c)
    }

    /// A component is shown on the policy violations tab, where the policy
    /// status criterion does not apply.
    pub open spec fn violation_shown(self, c: BomComponent) -> bool {
        component_text_shown(self.query(), c) && self.filter.admits_review_approval(c)
    }

    /// Positions of the components the search and filter let through.
    pub open spec fn visible_components(self) -> Seq<int> {
        kept_indices(self.components.items@, |c: BomComponent| self.component_shown(c))
    }

    /// Positions of the vulnerable entries the search lets through.
    pub open spec fn visible_vulnerabilities(self) -> Seq<int> {
        kept_indices(
            self.vulnerabilities.items@,
            |v: Vulnerability| vulnerability_shown(self.query(), v),
        )
    }

    /// Positions of the policy violations the search and the review and
    /// approval criteria let through.
    pub open spec fn visible_policy_violations(self) -> Seq<int> {
        kept_indices(self.policy_violations.items@, |c: BomComponent| self.violation_shown(c))
    }

    pub fn new(config: Config) -> (r: Self)
        ensures
            r.config == config,
            r.screen == start_screen(config),
            r.focus == Focus::Left,
            r.login_url_input == config.server.url,
            r.login_token_input@ == or_empty(config.server.api_token),
            r.login_active_field == 0,
            r.login_error is None,
            r.projects.is_cleared(),
            r.projects_total == 0 && r.projects_offset == 0,
            r.versions.is_cleared(),
            r.versions_total == 0 && r.versions_offset == 0,
            r.components.is_cleared(),
            r.components_total == 0 && r.components_offset == 0,
            r.vulnerabilities.is_cleared(),
            r.vulnerabilities_total == 0 && r.vulnerabilities_offset == 0,
            r.policy_violations.is_cleared(),
            r.policy_violations_total == 0 && r.policy_violations_offset == 0,
            r.selected_project is None,
            r.selected_version is None,
            r.version_tab == VersionTab::Components,
            !r.loading,
            r.status_message is None,
            r.error_message is None,
            !r.should_quit,
            r.search_input@.len() == 0,
            !r.search_active,
            r.filter.is_empty_spec(),
            r.filter_popup == (FilterPopup { open: false, focused_field: 0, focused_option: 0 }),
            r.available_policy_rules@.len() == 0,
    {
        let has_url = !config.server.url.as_str().is_empty();
        let has_token = config.server.api_token.is_some();
        let screen = if has_url && has_token {
            Screen::Projects
        } else {
            Screen::Login
        };
        let login_url_input = config.server.url.clone();
        let login_token_input = match &config.server.api_token {
            Some(t) => t.clone(),
            None => String::new(),
        };
        App {
            config,
            screen,
            focus: Focus::Left,
            login_url_input,
            login_token_input,
            login_active_field: 0,
            login_error: None,
            projects: StatefulList::default(),
            projects_total: 0,
            projects_offset: 0,
            versions: StatefulList::default(),
            versions_total: 0,
            versions_offset: 0,
            components: StatefulList::default(),
            components_total: 0,
            components_offset: 0,
            vulnerabilities: StatefulList::default(),
            vulnerabilities_total: 0,
            vulnerabilities_offset: 0,
            policy_violations: StatefulList::default(),
            policy_violations_total: 0,
            policy_violations_offset: 0,
            selected_project: None,
            selected_version: None,
            version_tab: VersionTab::Components,
            loading: false,
            status_message: None,
            error_message: None,
            should_quit: false,
            search_input: String::new(),
            search_active: false,
            filter: ComponentFilter::default(),
            filter_popup: FilterPopup::default(),
            available_policy_rules: Vec::new(),
        }
    }

    pub fn set_status(&mut self, msg: String)
        ensures
            *final(self) == (App {
                status_message: Some(msg),
                error_message: None,
                ..*old(self)
            }),
    {
        self.status_message = Some(msg);
        self.error_message = None;
    }

    pub fn set_error(&mut self, msg: String)
        ensures
            *final(self) == (App {
                error_message: Some(msg),
                status_message: None,
                loading: false,
                ..*old(self)
            }),
    {
        self.error_message = Some(msg);
        self.status_message = None;
        self.loading = false;
    }

    pub fn clear_messages(&mut self)
        ensures
            *final(self) == (App { status_message: None, error_message: None, ..*old(self) }),
    {
        self.status_message = None;
        self.error_message = None;
    }

    /// Navigate back one level; leaving a version also clears the active
    /// filters. Status and error messages are cleared in every case.
    pub fn go_back(&mut self)
        ensures
            back_step(*old(self), *final(self)),
    {
        match self.screen {
            Screen::Login | Screen::Projects => {},
            Screen::Versions => {
                self.screen = Screen::Projects;
                self.selected_project = None;
                self.versions = StatefulList::default();
                self.versions_total = 0;
                self.versions_offset = 0;
                self.focus = Focus::Left;
            },
            Screen::Components | Screen::Vulnerabilities | Screen::PolicyViolations => {
                self.screen = Screen::Versions;
                self.selected_version = None;
                self.components = StatefulList::default();
                self.components_total = 0;
                self.components_offset = 0;
                self.vulnerabilities = StatefulList::default();
                self.vulnerabilities_total = 0;
                self.vulnerabilities_offset = 0;
                self.policy_violations = StatefulList::default();
                self.policy_violations_total = 0;
                self.policy_violations_offset = 0;
                self.filter = ComponentFilter::default();
                self.filter_popup = FilterPopup::default();
                self.available_policy_rules.clear();
                self.focus = Focus::Left;
            },
        }
        self.clear_messages();
    }

    /// After any filter change, keep `components.selected` and
    /// `policy_violations.selected` on a visible row: a selection still
    /// visible is kept, a hidden one moves to the first visible row, or to
    /// 0 when nothing is visible.
    pub fn clamp_selection_to_filter(&mut self)
        ensures
            *final(self) == clamped_selection(*old(self)),
    {
        let comp_rows = self.filtered_components();
        let comp_visible = positions(&comp_rows);
        proof {
            lemma_row_positions(comp_rows@, self.components.items@, self.visible_components());
        }
        let comp_sel = clamp_selection(&comp_visible, self.components.selected);
        let pv_rows = self.filtered_policy_violations();
        let pv_visible = positions(&pv_rows);
        proof {
            lemma_row_positions(
                pv_rows@,
                self.policy_violations.items@,
                self.visible_policy_violations(),
            );
        }
        let pv_sel = clamp_selection(&pv_visible, self.policy_violations.selected);
        self.components.selected = comp_sel;
        self.policy_violations.selected = pv_sel;
    }

    // -----------------------------------------------------------------------
    // Filtered views
    // -----------------------------------------------------------------------
    /// The projects the search lets through, with their positions. With an
    /// empty search box every project is listed, in order.
    pub fn filtered_projects(&self) -> (r: Vec<(usize, &Project)>)
        ensures
            lists_rows(r@, self.projects.items@, self.visible_projects()),
            self.search_input@.len() == 0 ==> r@.len() == self.projects.items@.len() && forall|
                k: int,
            | 0 <= k < r@.len() ==> (#[trigger] r@[k]).0 == k,
    {
        let q = to_lowercase(self.search_input.as_str());
        proof {
            if self.search_input@.len() == 0 {
                lemma_unsearched_projects_all_shown(*self);
            }
        }
        let ghost keep = |p: Project| project_shown(self.query(), p);
        let items = &self.projects.items;
        let mut flags: Vec<bool> = Vec::new();
        let mut i: usize = 0;
        while i < items.len()
            invariant
                i <= items@.len(),
                q@ == self.query(),
                forall|x: Project| #[trigger] keep(x) == project_shown(self.query(), x),
                flags@.len() == i,
                forall|k: int| 0 <= k < i ==> flags@[k] == keep(#[trigger] items@[k]),
            decreases items@.len() - i,
        {
            let item = &items[i];
            flags.push(q.as_str().is_empty() || text_hit_exec(item.name.as_str(), q.as_str()));
            i = i + 1;
        }
        rows_where(items, &flags, Ghost(keep))
    }

    pub fn filtered_versions(&self) -> (r: Vec<(usize, &ProjectVersion)>)
        ensures
            lists_rows(r@, self.versions.items@, self.visible_versions()),
    {
        let q = to_lowercase(self.search_input.as_str());
        let ghost keep = |v: ProjectVersion| version_shown(self.query(), v);
        let items = &self.versions.items;
        let mut flags: Vec<bool> = Vec::new();
        let mut i: usize = 0;
        while i < items.len()
            invariant
                i <= items@.len(),
                q@ == self.query(),
                forall|x: ProjectVersion| #[trigger] keep(x) == version_shown(self.query(), x),
                flags@.len() == i,
                forall|k: int| 0 <= k < i ==> flags@[k] == keep(#[trigger] items@[k]),
            decreases items@.len() - i,
        {
            let item = &items[i];
            flags.push(q.as_str().is_empty() || text_hit_exec(item.version_name.as_str(), q.as_str()));
            i = i + 1;
        }
        rows_where(items, &flags, Ghost(keep))
    }

    /// The components the search and filter let through, with their
    /// positions. With an empty search box and no active filter criterion
    /// every component is listed, in order.
    pub fn filtered_components(&self) -> (r: Vec<(usize, &BomComponent)>)
        ensures
            lists_rows(r@, self.components.items@, self.visible_components()),
            self.search_input@.len() == 0 && self.filter.is_empty_spec() ==> r@.len()
                == self.components.items@.len() && forall|k: int|
                0 <= k < r@.len() ==> (#[trigger] r@[k]).0 == k,
    {
        let q = to_lowercase(self.search_input.as_str());
        proof {
            if self.search_input@.len() == 0 && self.filter.is_empty_spec() {
                lemma_unfiltered_components_all_shown(*self);
            }
        }
        let ghost keep = |c: BomComponent| self.component_shown(c);
        let items = &self.components.items;
        let mut flags: Vec<bool> = Vec::new();
        let mut i: usize = 0;
        while i < items.len()
            invariant
                i <= items@.len(),
                q@ == self.query(),
                forall|x: BomComponent| #[trigger] keep(x) == self.component_shown(x),
                flags@.len() == i,
                forall|k: int| 0 <= k < i ==> flags@[k] == keep(#[trigger] items@[k]),
            decreases items@.len() - i,
        {
            let item = &items[i];
            flags.push(component_text_matches(q.as_str(), item) && self.filter.matches(item));
            i = i + 1;
        }
        rows_where(items, &flags, Ghost(keep))
    }

    pub fn filtered_vulnerabilities(&self) -> (r: Vec<(usize, &Vulnerability)>)
        ensures
            lists_rows(r@, self.vulnerabilities.items@, self.visible_vulnerabilities()),
    {
        let q = to_lowercase(self.search_input.as_str());
        let ghost keep = |v: Vulnerability| vulnerability_shown(self.query(), v);
        let items = &self.vulnerabilities.items;
        let mut flags: Vec<bool> = Vec::new();
        let mut i: usize = 0;
        while i < items.len()
            invariant
                i <= items@.len(),
                q@ == self.query(),
                forall|x: Vulnerability| #[trigger] keep(x) == vulnerability_shown(self.query(), x),
                flags@.len() == i,
                forall|k: int| 0 <= k < i ==> flags@[k] == keep(#[trigger] items@[k]),
            decreases items@.len() - i,
        {
            let item = &items[i];
            flags.push(vulnerability_matches(q.as_str(), item));
            i = i + 1;
        }
        rows_where(items, &flags, Ghost(keep))
    }

    pub fn filtered_policy_violations(&self) -> (r: Vec<(usize, &BomComponent)>)
        ensures
            lists_rows(r@, self.policy_violations.items@, self.visible_policy_violations()),
    {
        let q = to_lowercase(self.search_input.as_str());
        let ghost keep = |c: BomComponent| self.violation_shown(c);
        let items = &self.policy_violations.items;
        let mut flags: Vec<bool> = Vec::new();
        let mut i: usize = 0;
        while i < items.len()
            invariant
                i <= items@.len(),
                q@ == self.query(),
                forall|x: BomComponent| #[trigger] keep(x) == self.violation_shown(x),
                flags@.len() == i,
                forall|k: int| 0 <= k < i ==> flags@[k] == keep(#[trigger] items@[k]),
            decreases items@.len() - i,
        {
            let item = &items[i];
            flags.push(component_text_matches(q.as_str(), item) && self.filter.matches_review_approval(item));
            i = i + 1;
        }
        rows_where(items, &flags, Ghost(keep))
    }
}

fn component_text_matches(q: &str, c: &BomComponent) -> (b: bool)
    ensures
        b == component_text_shown(q@, *c),
{
    if q.is_empty() {
        return true;
    }
    if text_hit_exec(c.component_name.as_str(), q) {
        return true;
    }
    let version = match &c.component_version_name {
        Some(v) => v.as_str(),
        None => {
            proof {
                reveal_strlit("");
            }
            assert(""@ =~= Seq::<char>::empty());
            ""
        },
    };
    text_hit_exec(version, q)
}

fn vulnerability_matches(q: &str, v: &Vulnerability) -> (b: bool)
    ensures
        b == vulnerability_shown(q@, *v),
{
    if q.is_empty() {
        return true;
    }
    let name = match &v.vulnerability_with_remediation {
        Some(d) => to_lowercase(d.vulnerability_name.as_str()),
        None => String::new(),
    };
    if contains_str(name.as_str(), q) {
        return true;
    }
    let comp = match &v.component_name {
        Some(c) => c.as_str(),
        None => {
            proof {
                reveal_strlit("");
            }
            assert(""@ =~= Seq::<char>::empty());
            ""
        },
    };
    text_hit_exec(comp, q)
}


// ---------------------------------------------------------------------------
// Laws of the filtered views
// ---------------------------------------------------------------------------
/// The policy violations tab ignores the policy status criterion: two
/// states that differ only in the selected policy statuses show the same
/// policy violations.
pub proof fn law_violations_ignore_policy_status(a: App, b: App)
    requires
        b == (App {
            filter: ComponentFilter { policy_statuses: b.filter.policy_statuses, ..a.filter },
            ..a
        }),
    ensures
        a.visible_policy_violations() == b.visible_policy_violations(),
{
    let fa = |c: BomComponent| a.violation_shown(c);
    let fb = |c: BomComponent| b.violation_shown(c);
    assert(fa =~= fb);
}

/// Without a search query and an active filter criterion every component
/// is shown, in order.
proof fn lemma_unfiltered_components_all_shown(app: App)
    requires
        app.query().len() == 0,
        app.filter.is_empty_spec(),
    ensures
        app.visible_components() == Seq::new(app.components.items@.len(), |i: int| i),
{
    let keep = |c: BomComponent| app.component_shown(c);
    lemma_kept_all(app.components.items@, keep);
}

/// Without a search query every project is listed, in order.
proof fn lemma_unsearched_projects_all_shown(app: App)
    requires
        app.query().len() == 0,
    ensures
        app.visible_projects() == Seq::new(app.projects.items@.len(), |i: int| i),
{
    let keep = |p: Project| project_shown(app.query(), p);
    lemma_kept_all(app.projects.items@, keep);
}

/// After clamping, each cursor is on a visible row whenever its list shows
/// any row, and a cursor already on a visible row stays where it is.
pub proof fn law_clamp_selects_visible(app: App)
    ensures
        app.visible_components().len() > 0 ==> app.visible_components().contains(
            clamp_to(app.visible_components(), app.components.selected as int),
        ),
        app.visible_components().contains(app.components.selected as int) ==> clamp_to(
            app.visible_components(),
            app.components.selected as int,
        ) == app.components.selected as int,
        app.visible_policy_violations().len() > 0 ==> app.visible_policy_violations().contains(
            clamp_to(app.visible_policy_violations(), app.policy_violations.selected as int),
        ),
        app.visible_policy_violations().contains(app.policy_violations.selected as int)
            ==> clamp_to(
            app.visible_policy_violations(),
            app.policy_violations.selected as int,
        ) == app.policy_violations.selected as int,
{
    lemma_clamp(app.visible_components(), app.components.selected as int);
    lemma_clamp(app.visible_policy_violations(), app.policy_violations.selected as int);
}

/// Moving the popup's field focus down four times (or up four times)
/// returns to the same field.
pub proof fn law_field_focus_cycles(f: int)
    requires
        0 <= f,
    ensures
        field_at(((((f + 1) % 4 + 1) % 4 + 1) % 4 + 1) % 4) == field_at(f),
        field_at(((((f + 3) % 4 + 3) % 4 + 3) % 4 + 3) % 4) == field_at(f),
        field_at((f + 1) % 4) == field_at(field_row(field_at(f)) + 1),
        field_at((f + 3) % 4) == field_at(field_row(field_at(f)) + 3),
{
}


/// A component passes the status criteria exactly when each criterion is
/// empty or holds the component's status (an absent status counting as the
/// empty text) at some position: the values of one criterion are
/// alternatives, whatever their order, and the criteria must all hold.
pub proof fn law_status_criteria(f: ComponentFilter, c: BomComponent)
    ensures
        f.admits_review_approval(c) <==> ((f.review_statuses@.len() == 0 || exists|i: int|
            0 <= i < f.review_statuses@.len() && (#[trigger] f.review_statuses@[i])@ == (match c.review_status { Some(x) => x@, None => seq![] })) && (f.approval_statuses@.len() == 0 || exists|i: int|
            0 <= i < f.approval_statuses@.len() && (#[trigger] f.approval_statuses@[i])@
                == (match c.approval_status { Some(x) => x@, None => seq![] }))),
        f.admits(c) <==> ((f.policy_statuses@.len() == 0 || exists|i: int|
            0 <= i < f.policy_statuses@.len() && (#[trigger] f.policy_statuses@[i])@ == (match c.policy_status { Some(x) => x@, None => seq![] })) && f.admits_review_approval(c)),
{
    lemma_allows(f.review_statuses@, or_empty(c.review_status));
    lemma_allows(f.approval_statuses@, or_empty(c.approval_status));
    lemma_allows(f.policy_statuses@, or_empty(c.policy_status));
}

proof fn lemma_allows(set: Seq<String>, v: Seq<char>)
    ensures
        allows(set, v) <==> (set.len() == 0 || exists|i: int|
            0 <= i < set.len() && (#[trigger] set[i])@ == v),
{
    if texts(set).contains(v) {
        let i = choose|i: int| 0 <= i < texts(set).len() && texts(set)[i] == v;
        assert(set[i]@ == v);
    }
    if exists|i: int| 0 <= i < set.len() && (#[trigger] set[i])@ == v {
        let i = choose|i: int| 0 <= i < set.len() && (#[trigger] set[i])@ == v;
        assert(texts(set)[i] == v);
    }
}

/// The `filter=` values name every accepted value once, in order: first
/// each policy status as `policyStatus:<value>`, then each review status
/// as `reviewStatus:<value>`, each approval status as
/// `approvalStatus:<value>`, and each rule ID as
/// `policyRuleViolation:<value>`; and every parameter is named `filter`.
pub proof fn law_api_params(f: ComponentFilter)
    ensures
        f.api_param_values().len() == f.policy_statuses@.len() + f.review_statuses@.len()
            + f.approval_statuses@.len() + f.rule_ids@.len(),
        forall|i: int|
            0 <= i < f.policy_statuses@.len() ==> f.api_param_values()[i] == "policyStatus:"@
                + (#[trigger] f.policy_statuses@[i])@,
        forall|i: int|
            0 <= i < f.review_statuses@.len() ==> f.api_param_values()[f.policy_statuses@.len()
                + i] == "reviewStatus:"@ + (#[trigger] f.review_statuses@[i])@,
        forall|i: int|
            0 <= i < f.approval_statuses@.len() ==> f.api_param_values()[f.policy_statuses@.len()
                + f.review_statuses@.len() + i] == "approvalStatus:"@ + (
            #[trigger] f.approval_statuses@[i])@,
        forall|i: int|
            0 <= i < f.rule_ids@.len() ==> f.api_param_values()[f.policy_statuses@.len()
                + f.review_statuses@.len() + f.approval_statuses@.len() + i]
                == "policyRuleViolation:"@ + (#[trigger] f.rule_ids@[i])@,
        forall|i: int|
            0 <= i < filter_pairs(f.api_param_values()).len() ==> (#[trigger] filter_pairs(
                f.api_param_values(),
            )[i]).0 == "filter"@,
{
    let a = prefixed(f.policy_statuses@, "policyStatus:"@);
    let b = prefixed(f.review_statuses@, "reviewStatus:"@);
    let c = prefixed(f.approval_statuses@, "approvalStatus:"@);
    let d = prefixed(f.rule_ids@, "policyRuleViolation:"@);
    let all = f.api_param_values();
    assert(all == a + b + c + d);
    assert forall|i: int| 0 <= i < f.policy_statuses@.len() implies all[i] == "policyStatus:"@
        + (#[trigger] f.policy_statuses@[i])@ by {
        assert(a[i] == "policyStatus:"@ + texts(f.policy_statuses@)[i]);
    }
    assert forall|i: int| 0 <= i < f.review_statuses@.len() implies all[a.len() + i]
        == "reviewStatus:"@ + (#[trigger] f.review_statuses@[i])@ by {
        assert(b[i] == "reviewStatus:"@ + texts(f.review_statuses@)[i]);
        assert((a + b)[a.len() + i] == b[i]);
    }
    assert forall|i: int| 0 <= i < f.approval_statuses@.len() implies all[a.len() + b.len() + i]
        == "approvalStatus:"@ + (#[trigger] f.approval_statuses@[i])@ by {
        assert(c[i] == "approvalStatus:"@ + texts(f.approval_statuses@)[i]);
        assert((a + b + c)[a.len() + b.len() + i] == c[i]);
    }
    assert forall|i: int| 0 <= i < f.rule_ids@.len() implies all[a.len() + b.len() + c.len() + i]
        == "policyRuleViolation:"@ + (#[trigger] f.rule_ids@[i])@ by {
        assert(d[i] == "policyRuleViolation:"@ + texts(f.rule_ids@)[i]);
    }
}

/// The search is a case-insensitive substring search: a project or a
/// version is listed exactly when the query is empty or its lower-cased
/// name contains the lower-cased search text.
pub proof fn law_search_projects_versions(app: App)
    ensures
        forall|k: int|
            0 <= k < app.projects.items@.len() ==> (app.visible_projects().contains(k) <==> (
            lowercase(app.search_input@).len() == 0 || has_substring(
                lowercase((#[trigger] app.projects.items@[k]).name@),
                lowercase(app.search_input@),
            ))),
        forall|k: int|
            0 <= k < app.versions.items@.len() ==> (app.visible_versions().contains(k) <==> (
            lowercase(app.search_input@).len() == 0 || has_substring(
                lowercase((#[trigger] app.versions.items@[k]).version_name@),
                lowercase(app.search_input@),
            ))),
{
    lemma_kept_indices(app.projects.items@, |p: Project| project_shown(app.query(), p));
    lemma_kept_indices(app.versions.items@, |v: ProjectVersion| version_shown(app.query(), v));
}

/// A component is listed only when the filter admits it, and it is listed
/// when the filter admits it and the query is empty or its lower-cased
/// name or version name contains the query.
pub proof fn law_search_components(app: App)
    ensures
        forall|k: int|
            0 <= k < app.components.items@.len() && app.visible_components().contains(k)
                ==> app.filter.admits(#[trigger] app.components.items@[k]),
        forall|k: int|
            0 <= k < app.components.items@.len() && app.filter.admits(
                #[trigger] app.components.items@[k],
            ) && (lowercase(app.search_input@).len() == 0 || has_substring(
                lowercase(app.components.items@[k].component_name@),
                lowercase(app.search_input@),
            ) || (app.components.items@[k].component_version_name matches Some(n)
                && has_substring(lowercase(n@), lowercase(app.search_input@)))) ==> app.visible_components().contains(
                k,
            ),
{
    lemma_kept_indices(app.components.items@, |c: BomComponent| app.component_shown(c));
}

/// A vulnerable entry is listed when the query is empty, or when the
/// lower-cased name of its vulnerability or the lower-cased name of its
/// component contains the query; and only when one of the two names (an
/// absent one counting as empty) contains it or the query is empty.
pub proof fn law_search_vulnerabilities(app: App)
    ensures
        forall|k: int|
            0 <= k < app.vulnerabilities.items@.len() && (lowercase(app.search_input@).len() == 0 || ((
            #[trigger] app.vulnerabilities.items@[k]).vulnerability_with_remediation matches Some(
                d,
            ) && has_substring(lowercase(d.vulnerability_name@), lowercase(app.search_input@))) || (
            app.vulnerabilities.items@[k].component_name matches Some(n) && has_substring(
                lowercase(n@),
                lowercase(app.search_input@),
            ))) ==> app.visible_vulnerabilities().contains(k),
        forall|k: int|
            0 <= k < app.vulnerabilities.items@.len() && app.visible_vulnerabilities().contains(k)
                ==> lowercase(app.search_input@).len() == 0 || has_substring(
                folded_vulnerability_name(#[trigger] app.vulnerabilities.items@[k]),
                lowercase(app.search_input@),
            ) || has_substring(
                lowercase(or_empty(app.vulnerabilities.items@[k].component_name)),
                lowercase(app.search_input@),
            ),
{
    lemma_kept_indices(
        app.vulnerabilities.items@,
        |v: Vulnerability| vulnerability_shown(app.query(), v),
    );
}

} // verus!
