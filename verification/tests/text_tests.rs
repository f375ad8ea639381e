use blackduck_tui::api::{RiskCount, RiskCountEntry};
use blackduck_tui::app::{App, ComponentFilter, Screen, VersionTab};
use blackduck_tui::config::Config;
use blackduck_tui::rules::{dedup_by_id, organize_policy_rules, sort_by_name};
use blackduck_tui::text::{contains_str, decimal_string, join, lex_le_exec, trim, trim_end_char};
use blackduck_tui::ui::{
    build_breadcrumb, key_hint, masked_token, risk_summary, severity_level, status_line,
    MessageKind, Severity,
};

#[test]
fn trim_removes_unicode_white_space() {
    assert_eq!(trim("\u{00A0} a b\t\n"), "a b");
    assert_eq!(trim("   "), "");
    assert_eq!(trim_end_char("x///", '/'), "x");
}

#[test]
fn contains_and_order() {
    assert!(contains_str("hello", "ll"));
    assert!(contains_str("hello", ""));
    assert!(!contains_str("he", "hello"));
    assert!(lex_le_exec("abc", "abd"));
    assert!(lex_le_exec("ab", "abc"));
    assert!(!lex_le_exec("b", "abc"));
    assert_eq!(decimal_string(0), "0");
    assert_eq!(decimal_string(1234567890123), "1234567890123");
    assert_eq!(
        join(&vec!["a".to_string(), "b".to_string(), "c".to_string()], ", "),
        "a, b, c"
    );
}

#[test]
fn search_folds_case() {
    let mut app = App::new(Config::default());
    app.components = blackduck_tui::app::StatefulList::new(vec![
        blackduck_tui::api::BomComponent {
            component_name: "OpenSSL".to_string(),
            ..Default::default()
        },
        blackduck_tui::api::BomComponent {
            component_name: "zlib".to_string(),
            component_version_name: Some("1.2.SSL".to_string()),
            ..Default::default()
        },
    ]);
    app.search_input = "SSL".to_string();
    let rows = app.filtered_components();
    assert_eq!(rows.len(), 2);
    assert_eq!(rows[1].0, 1);
}

#[test]
fn api_params_in_order() {
    let mut f = ComponentFilter::default();
    f.review_statuses.push("REVIEWED".to_string());
    f.policy_statuses.push("IN_VIOLATION".to_string());
    f.rule_ids.push("PR~1".to_string());
    let params = f.to_api_params();
    assert_eq!(params.len(), 3);
    assert_eq!(params[0], ("filter", "policyStatus:IN_VIOLATION".to_string()));
    assert_eq!(params[1], ("filter", "reviewStatus:REVIEWED".to_string()));
    assert_eq!(params[2], ("filter", "policyRuleViolation:PR~1".to_string()));
}

#[test]
fn risk_summary_lists_nonzero_buckets() {
    assert_eq!(risk_summary(None), "none");
    let rc = RiskCount {
        counts: Some(vec![
            RiskCountEntry { count_type: "HIGH".to_string(), count: 2 },
            RiskCountEntry { count_type: "MEDIUM".to_string(), count: 0 },
            RiskCountEntry { count_type: "LOW".to_string(), count: 5 },
            RiskCountEntry { count_type: "".to_string(), count: 1 },
        ]),
    };
    assert_eq!(risk_summary(Some(&rc)), "H:2 L:5 ?:1");
    let zero = RiskCount {
        counts: Some(vec![RiskCountEntry { count_type: "HIGH".to_string(), count: 0 }]),
    };
    assert_eq!(risk_summary(Some(&zero)), "none");
}

#[test]
fn breadcrumb_follows_navigation() {
    let mut app = App::new(Config::default());
    assert_eq!(build_breadcrumb(&app), "BlackDuck TUI");
    app.selected_project = Some(blackduck_tui::api::Project {
        name: "proj".to_string(),
        ..Default::default()
    });
    app.selected_version = Some(blackduck_tui::api::ProjectVersion {
        version_name: "1.0".to_string(),
        ..Default::default()
    });
    app.screen = Screen::Vulnerabilities;
    app.version_tab = VersionTab::Vulnerabilities;
    assert_eq!(build_breadcrumb(&app), "BlackDuck TUI > proj > 1.0 > Vulnerabilities");
    assert_eq!(
        key_hint(Screen::Versions),
        "j/k:move  Enter:open  Backspace:back  /:search  q:quit"
    );
}

#[test]
fn status_line_prefers_errors() {
    let mut app = App::new(Config::default());
    assert_eq!(status_line(&app), (String::new(), MessageKind::Blank));
    app.loading = true;
    assert_eq!(status_line(&app), ("Loading...".to_string(), MessageKind::Loading));
    app.set_status("ok".to_string());
    assert_eq!(status_line(&app), ("ok".to_string(), MessageKind::Status));
    app.set_error("bad".to_string());
    assert_eq!(status_line(&app), ("bad".to_string(), MessageKind::Error));
    app.clear_messages();
    assert_eq!(app.error_message, None);
}

#[test]
fn token_mask_is_capped() {
    let mut app = App::new(Config::default());
    app.login_token_input = "abc".to_string();
    assert_eq!(masked_token(&app), "***");
    app.login_token_input = "x".repeat(50);
    assert_eq!(masked_token(&app), "*".repeat(40));
}

#[test]
fn severity_ignores_case() {
    assert_eq!(severity_level("critical"), Severity::Critical);
    assert_eq!(severity_level("High"), Severity::High);
    assert_eq!(severity_level("MEDIUM"), Severity::Medium);
    assert_eq!(severity_level("low"), Severity::Low);
    assert_eq!(severity_level("?"), Severity::Other);
}

#[test]
fn rules_sort_then_dedup() {
    let rules = vec![
        ("b".to_string(), "2".to_string()),
        ("a".to_string(), "1".to_string()),
        ("c".to_string(), "2".to_string()),
    ];
    let sorted = sort_by_name(rules.clone());
    let names: Vec<&str> = sorted.iter().map(|r| r.0.as_str()).collect();
    assert_eq!(names, vec!["a", "b", "c"]);
    let deduped = dedup_by_id(sorted);
    // "b" and "c" share a rule ID, so the later "c" is dropped
    assert_eq!(deduped.len(), 2);
    assert_eq!(deduped[1].0, "b");
    let collapsed = dedup_by_id(vec![
        ("x".to_string(), "9".to_string()),
        ("y".to_string(), "9".to_string()),
        ("z".to_string(), "8".to_string()),
    ]);
    assert_eq!(collapsed.len(), 2);
    assert_eq!(collapsed[0].0, "x");
    assert_eq!(organize_policy_rules(vec![]).len(), 0);
}

#[test]
fn rules_with_a_repeated_id_far_apart_keep_one() {
    let r = organize_policy_rules(vec![
        ("C".to_string(), "1".to_string()),
        ("A".to_string(), "1".to_string()),
        ("B".to_string(), "2".to_string()),
    ]);
    let got: Vec<(&str, &str)> = r.iter().map(|e| (e.0.as_str(), e.1.as_str())).collect();
    assert_eq!(got, vec![("A", "1"), ("B", "2")]);
}

#[test]
fn trim_uses_unicode_white_space() {
    assert_eq!(trim("\u{3000}\u{85}x y\u{2009}\u{a0}"), "x y");
    assert_eq!(trim("\u{200b}x"), "\u{200b}x");
    assert_eq!(trim("\t\n\r\u{b}\u{c} x"), "x");
}
