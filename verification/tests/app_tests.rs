use blackduck_tui::api::BomComponent;
use blackduck_tui::app::{
    App, ComponentFilter, FilterField, FilterPopup, Screen, StatefulList, VersionTab,
};
use blackduck_tui::config::Config;

// Helper: create a minimal BomComponent with given status fields
fn make_component(
    name: &str,
    policy: Option<&str>,
    review: Option<&str>,
    approval: Option<&str>,
) -> BomComponent {
    BomComponent {
        component_name: name.to_string(),
        policy_status: policy.map(ToString::to_string),
        review_status: review.map(ToString::to_string),
        approval_status: approval.map(ToString::to_string),
        ..BomComponent::default()
    }
}

fn make_app_with_components(components: Vec<BomComponent>) -> App {
    let mut app = App::new(Config::default());
    app.components = StatefulList::new(components);
    app
}

// ------------------------------------------------------------------
// FilterField
// ------------------------------------------------------------------

#[test]
fn filter_field_label() {
    assert_eq!(FilterField::PolicyStatus.label(), "Policy Status");
    assert_eq!(FilterField::ReviewStatus.label(), "Review Status");
    assert_eq!(FilterField::ApprovalStatus.label(), "Approval Status");
    assert_eq!(FilterField::PolicyRuleName.label(), "Policy Rule Name");
}

#[test]
fn filter_field_options_non_empty() {
    // PolicyRuleName has dynamic options — static slice is intentionally empty
    for field in FilterField::ALL {
        if field == FilterField::PolicyRuleName {
            assert!(
                field.options().is_empty(),
                "PolicyRuleName static options should be empty (dynamic)"
            );
        } else {
            assert!(!field.options().is_empty(), "{field:?} should have options");
        }
    }
}

#[test]
fn filter_field_next_wraps() {
    assert_eq!(FilterField::PolicyStatus.next(), FilterField::ReviewStatus);
    assert_eq!(FilterField::ReviewStatus.next(), FilterField::ApprovalStatus);
    assert_eq!(FilterField::ApprovalStatus.next(), FilterField::PolicyRuleName);
    assert_eq!(FilterField::PolicyRuleName.next(), FilterField::PolicyStatus);
}

#[test]
fn filter_field_prev_wraps() {
    assert_eq!(FilterField::PolicyStatus.prev(), FilterField::PolicyRuleName);
    assert_eq!(FilterField::ReviewStatus.prev(), FilterField::PolicyStatus);
    assert_eq!(FilterField::ApprovalStatus.prev(), FilterField::ReviewStatus);
    assert_eq!(FilterField::PolicyRuleName.prev(), FilterField::ApprovalStatus);
}

#[test]
fn filter_field_all_covers_all_variants() {
    assert_eq!(FilterField::ALL.len(), 4);
    assert!(FilterField::ALL.contains(&FilterField::PolicyStatus));
    assert!(FilterField::ALL.contains(&FilterField::ReviewStatus));
    assert!(FilterField::ALL.contains(&FilterField::ApprovalStatus));
    assert!(FilterField::ALL.contains(&FilterField::PolicyRuleName));
}

// ------------------------------------------------------------------
// ComponentFilter — is_empty / active_count
// ------------------------------------------------------------------

#[test]
fn component_filter_default_is_empty() {
    let f = ComponentFilter::default();
    assert!(f.is_empty());
    assert_eq!(f.active_count(), 0);
}

#[test]
fn component_filter_active_count_increments_per_field() {
    let mut f = ComponentFilter::default();
    f.policy_statuses.push("IN_VIOLATION".to_string());
    assert_eq!(f.active_count(), 1);
    assert!(!f.is_empty());

    f.review_statuses.push("REVIEWED".to_string());
    assert_eq!(f.active_count(), 2);

    f.approval_statuses.push("APPROVED".to_string());
    assert_eq!(f.active_count(), 3);

    f.rule_ids.push("rule-id-123".to_string());
    assert_eq!(f.active_count(), 4);
}

#[test]
fn component_filter_active_count_is_per_field_not_per_value() {
    // Adding two values to the same field still counts as 1
    let mut f = ComponentFilter::default();
    f.policy_statuses.push("IN_VIOLATION".to_string());
    f.policy_statuses.push("NOT_IN_VIOLATION".to_string());
    assert_eq!(f.active_count(), 1);
}

// ------------------------------------------------------------------
// ComponentFilter::toggle
// ------------------------------------------------------------------

#[test]
fn toggle_adds_when_absent() {
    let mut set: Vec<String> = vec![];
    ComponentFilter::toggle(&mut set, "IN_VIOLATION");
    assert_eq!(set, vec!["IN_VIOLATION"]);
}

#[test]
fn toggle_removes_when_present() {
    let mut set = vec!["IN_VIOLATION".to_string()];
    ComponentFilter::toggle(&mut set, "IN_VIOLATION");
    assert!(set.is_empty());
}

#[test]
fn toggle_idempotent_add_then_remove() {
    let mut set: Vec<String> = vec![];
    ComponentFilter::toggle(&mut set, "REVIEWED");
    ComponentFilter::toggle(&mut set, "REVIEWED");
    assert!(set.is_empty());
}

#[test]
fn toggle_only_removes_matching_value() {
    let mut set = vec!["REVIEWED".to_string(), "DYNAMIC".to_string()];
    ComponentFilter::toggle(&mut set, "REVIEWED");
    assert_eq!(set, vec!["DYNAMIC"]);
}

// ------------------------------------------------------------------
// ComponentFilter::matches
// ------------------------------------------------------------------

#[test]
fn matches_empty_filter_passes_everything() {
    let f = ComponentFilter::default();
    let c = make_component("lib", Some("IN_VIOLATION"), Some("REVIEWED"), Some("APPROVED"));
    assert!(f.matches(&c));
}

#[test]
fn matches_policy_status_included() {
    let mut f = ComponentFilter::default();
    f.policy_statuses.push("IN_VIOLATION".to_string());

    let yes = make_component("a", Some("IN_VIOLATION"), None, None);
    let no = make_component("b", Some("NOT_IN_VIOLATION"), None, None);
    let missing = make_component("c", None, None, None);

    assert!(f.matches(&yes));
    assert!(!f.matches(&no));
    assert!(!f.matches(&missing)); // "" does not match
}

#[test]
fn matches_policy_status_multiple_values_or_semantics() {
    let mut f = ComponentFilter::default();
    f.policy_statuses.push("IN_VIOLATION".to_string());
    f.policy_statuses.push("IN_VIOLATION_OVERRIDDEN".to_string());

    assert!(f.matches(&make_component("a", Some("IN_VIOLATION"), None, None)));
    assert!(f.matches(&make_component("b", Some("IN_VIOLATION_OVERRIDDEN"), None, None)));
    assert!(!f.matches(&make_component("c", Some("NOT_IN_VIOLATION"), None, None)));
}

#[test]
fn matches_review_status_filter() {
    let mut f = ComponentFilter::default();
    f.review_statuses.push("REVIEWED".to_string());

    assert!(f.matches(&make_component("a", None, Some("REVIEWED"), None)));
    assert!(!f.matches(&make_component("b", None, Some("UNREVIEWED"), None)));
}

#[test]
fn matches_approval_status_filter() {
    let mut f = ComponentFilter::default();
    f.approval_statuses.push("APPROVED".to_string());

    assert!(f.matches(&make_component("a", None, None, Some("APPROVED"))));
    assert!(!f.matches(&make_component("b", None, None, Some("REJECTED"))));
}

#[test]
fn matches_all_filters_must_pass_and_semantics() {
    let mut f = ComponentFilter::default();
    f.review_statuses.push("REVIEWED".to_string());
    f.approval_statuses.push("APPROVED".to_string());

    // Both match
    assert!(f.matches(&make_component("a", None, Some("REVIEWED"), Some("APPROVED"))));
    // review OK, approval not
    assert!(!f.matches(&make_component("b", None, Some("REVIEWED"), Some("PENDING"))));
    // approval OK, review not
    assert!(!f.matches(&make_component("c", None, Some("UNREVIEWED"), Some("APPROVED"))));
}

#[test]
fn filter_popup_move_option_noop_when_zero_options() {
    let mut p = FilterPopup {
        focused_option: 2,
        ..FilterPopup::default()
    };
    p.move_option_down(0); // should not panic or change state
    assert_eq!(p.focused_option, 2);
    p.move_option_up(0);
    assert_eq!(p.focused_option, 2);
}

// ------------------------------------------------------------------
// FilterPopup navigation
// ------------------------------------------------------------------

#[test]
fn filter_popup_current_field_default_is_policy_status() {
    let p = FilterPopup::default();
    assert_eq!(p.current_field(), FilterField::PolicyStatus);
}

#[test]
fn filter_popup_move_field_down_cycles() {
    let mut p = FilterPopup::default();
    p.move_field_down();
    assert_eq!(p.current_field(), FilterField::ReviewStatus);
    p.move_field_down();
    assert_eq!(p.current_field(), FilterField::ApprovalStatus);
    p.move_field_down();
    assert_eq!(p.current_field(), FilterField::PolicyRuleName);
    p.move_field_down();
    assert_eq!(p.current_field(), FilterField::PolicyStatus);
}

#[test]
fn filter_popup_move_field_up_cycles() {
    let mut p = FilterPopup::default();
    p.move_field_up();
    assert_eq!(p.current_field(), FilterField::PolicyRuleName);
    p.move_field_up();
    assert_eq!(p.current_field(), FilterField::ApprovalStatus);
    p.move_field_up();
    assert_eq!(p.current_field(), FilterField::ReviewStatus);
    p.move_field_up();
    assert_eq!(p.current_field(), FilterField::PolicyStatus);
}

#[test]
fn filter_popup_move_field_resets_focused_option() {
    let mut p = FilterPopup {
        focused_option: 2,
        ..FilterPopup::default()
    };
    p.move_field_down();
    assert_eq!(p.focused_option, 0);
}

#[test]
fn filter_popup_move_option_down_cycles_within_field() {
    let mut p = FilterPopup::default(); // PolicyStatus has 3 options
    let opts_len = FilterField::PolicyStatus.options().len();
    for i in 0..opts_len {
        assert_eq!(p.focused_option, i);
        p.move_option_down(opts_len);
    }
    assert_eq!(p.focused_option, 0); // wrapped back
}

#[test]
fn filter_popup_move_option_up_cycles_within_field() {
    let mut p = FilterPopup::default();
    let opts_len = FilterField::PolicyStatus.options().len();
    p.move_option_up(opts_len); // should wrap to last option
    assert_eq!(p.focused_option, opts_len - 1);
}

// ------------------------------------------------------------------
// StatefulList
// ------------------------------------------------------------------

#[test]
fn stateful_list_new_selects_first() {
    let list = StatefulList::new(vec![1, 2, 3]);
    assert_eq!(list.selected, 0);
    assert_eq!(list.selected_item(), Some(&1));
}

#[test]
fn stateful_list_default_is_empty() {
    let list: StatefulList<i32> = StatefulList::default();
    assert!(list.is_empty());
    assert_eq!(list.selected_item(), None);
}

#[test]
fn stateful_list_selected_item_respects_index() {
    let mut list = StatefulList::new(vec!["a", "b", "c"]);
    list.selected = 2;
    assert_eq!(list.selected_item(), Some(&"c"));
}

#[test]
fn stateful_list_selected_item_out_of_bounds_returns_none() {
    let mut list = StatefulList::new(vec!["a"]);
    list.selected = 99;
    assert_eq!(list.selected_item(), None);
}

// ------------------------------------------------------------------
// App::clamp_selection_to_filter
// ------------------------------------------------------------------

#[test]
fn clamp_keeps_selection_when_still_visible() {
    let components = vec![
        make_component("a", Some("IN_VIOLATION"), None, None),
        make_component("b", Some("IN_VIOLATION"), None, None),
        make_component("c", Some("NOT_IN_VIOLATION"), None, None),
    ];
    let mut app = make_app_with_components(components);
    app.filter.policy_statuses.push("IN_VIOLATION".to_string());
    // "a" and "b" are at raw indices 0 and 1, both pass filter
    app.components.selected = 1; // "b" — still visible
    app.clamp_selection_to_filter();
    assert_eq!(app.components.selected, 1); // unchanged
}

#[test]
fn clamp_snaps_to_first_when_selected_filtered_out() {
    let components = vec![
        make_component("a", Some("IN_VIOLATION"), None, None),
        make_component("b", Some("NOT_IN_VIOLATION"), None, None),
        make_component("c", Some("IN_VIOLATION"), None, None),
    ];
    let mut app = make_app_with_components(components);
    // "b" at index 1 is selected but will be filtered out
    app.components.selected = 1;
    app.filter.policy_statuses.push("IN_VIOLATION".to_string());
    app.clamp_selection_to_filter();
    // first visible index is 0 ("a")
    assert_eq!(app.components.selected, 0);
}

#[test]
fn clamp_to_zero_when_nothing_passes_filter() {
    let components = vec![
        make_component("a", Some("NOT_IN_VIOLATION"), None, None),
        make_component("b", Some("NOT_IN_VIOLATION"), None, None),
    ];
    let mut app = make_app_with_components(components);
    app.components.selected = 1;
    // filter that matches nothing
    app.filter.policy_statuses.push("IN_VIOLATION".to_string());
    app.clamp_selection_to_filter();
    assert_eq!(app.components.selected, 0); // defaults to 0
}

#[test]
fn clamp_policy_violations_independently() {
    let violations = vec![
        make_component("x", Some("IN_VIOLATION"), Some("REVIEWED"), None),
        make_component("y", Some("IN_VIOLATION"), Some("UNREVIEWED"), None),
    ];
    let mut app = App::new(Config::default());
    app.policy_violations = StatefulList::new(violations);
    // select "y" at raw index 1, then filter to REVIEWED only → "y" hidden
    app.policy_violations.selected = 1;
    app.filter.review_statuses.push("REVIEWED".to_string());
    app.clamp_selection_to_filter();
    // first (and only) visible policy violation is index 0 ("x")
    assert_eq!(app.policy_violations.selected, 0);
}

// ------------------------------------------------------------------
// App::filtered_components / filtered_policy_violations
// ------------------------------------------------------------------

#[test]
fn filtered_components_no_filter_returns_all() {
    let components = vec![
        make_component("alpha", None, None, None),
        make_component("beta", None, None, None),
    ];
    let app = make_app_with_components(components);
    assert_eq!(app.filtered_components().len(), 2);
}

#[test]
fn filtered_components_search_filters_by_name() {
    let components = vec![
        make_component("alpha", None, None, None),
        make_component("beta", None, None, None),
    ];
    let mut app = make_app_with_components(components);
    app.search_input = "alph".to_string();
    let result = app.filtered_components();
    assert_eq!(result.len(), 1);
    assert_eq!(result[0].1.component_name, "alpha");
}

#[test]
fn filtered_components_status_filter_applied() {
    let components = vec![
        make_component("a", Some("IN_VIOLATION"), None, None),
        make_component("b", Some("NOT_IN_VIOLATION"), None, None),
    ];
    let mut app = make_app_with_components(components);
    app.filter.policy_statuses.push("IN_VIOLATION".to_string());
    let result = app.filtered_components();
    assert_eq!(result.len(), 1);
    assert_eq!(result[0].1.component_name, "a");
}

#[test]
fn filtered_policy_violations_ignores_policy_status_filter() {
    let violations = vec![
        make_component("a", Some("IN_VIOLATION"), Some("REVIEWED"), None),
        make_component("b", Some("IN_VIOLATION"), Some("UNREVIEWED"), None),
    ];
    let mut app = App::new(Config::default());
    app.policy_violations = StatefulList::new(violations);
    // Even if policy_status filter is set, it should be ignored for violations tab
    app.filter.policy_statuses.push("NOT_IN_VIOLATION".to_string());
    let result = app.filtered_policy_violations();
    // Both components should still appear (policy_status filter ignored)
    assert_eq!(result.len(), 2);
}

#[test]
fn filtered_policy_violations_review_filter_applied() {
    let violations = vec![
        make_component("a", Some("IN_VIOLATION"), Some("REVIEWED"), None),
        make_component("b", Some("IN_VIOLATION"), Some("UNREVIEWED"), None),
    ];
    let mut app = App::new(Config::default());
    app.policy_violations = StatefulList::new(violations);
    app.filter.review_statuses.push("REVIEWED".to_string());
    let result = app.filtered_policy_violations();
    assert_eq!(result.len(), 1);
    assert_eq!(result[0].1.component_name, "a");
}

// ------------------------------------------------------------------
// App::go_back — filter reset + pagination reset
// ------------------------------------------------------------------

#[test]
fn go_back_from_components_resets_filter() {
    let mut app = App::new(Config::default());
    app.screen = Screen::Components;
    app.filter.policy_statuses.push("IN_VIOLATION".to_string());
    app.filter_popup.open = true;
    app.go_back();
    assert!(app.filter.is_empty());
    assert!(!app.filter_popup.open);
}

#[test]
fn go_back_from_components_resets_pagination_fields() {
    let mut app = App::new(Config::default());
    app.screen = Screen::Components;
    app.components_total = 500;
    app.components_offset = 100;
    app.vulnerabilities_total = 200;
    app.vulnerabilities_offset = 100;
    app.policy_violations_total = 50;
    app.policy_violations_offset = 50;
    app.go_back();
    assert_eq!(app.components_total, 0);
    assert_eq!(app.components_offset, 0);
    assert_eq!(app.vulnerabilities_total, 0);
    assert_eq!(app.vulnerabilities_offset, 0);
    assert_eq!(app.policy_violations_total, 0);
    assert_eq!(app.policy_violations_offset, 0);
}

#[test]
fn go_back_from_versions_does_not_reset_filter() {
    // Filter is only reset one level below (version-detail screens)
    let mut app = App::new(Config::default());
    app.screen = Screen::Versions;
    app.filter.policy_statuses.push("IN_VIOLATION".to_string());
    app.go_back();
    // filter state is not touched by go_back from Versions
    assert!(!app.filter.is_empty());
}

// ------------------------------------------------------------------
// VersionTab
// ------------------------------------------------------------------

#[test]
fn version_tab_next_cycles() {
    assert_eq!(VersionTab::Components.next(), VersionTab::Vulnerabilities);
    assert_eq!(VersionTab::Vulnerabilities.next(), VersionTab::PolicyViolations);
    assert_eq!(VersionTab::PolicyViolations.next(), VersionTab::Components);
}

#[test]
fn version_tab_prev_cycles() {
    assert_eq!(VersionTab::Components.prev(), VersionTab::PolicyViolations);
    assert_eq!(VersionTab::Vulnerabilities.prev(), VersionTab::Components);
    assert_eq!(VersionTab::PolicyViolations.prev(), VersionTab::Vulnerabilities);
}

#[test]
fn version_tab_title_non_empty() {
    for tab in [
        VersionTab::Components,
        VersionTab::Vulnerabilities,
        VersionTab::PolicyViolations,
    ] {
        assert!(!tab.title().is_empty());
    }
}
