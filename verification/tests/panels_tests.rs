use blackduck_tui::api::types::{
    BomComponent, ComponentLicense, LicenseInfo, Meta, Project, ProjectVersion, RiskCount,
    RiskCountEntry, Vulnerability, VulnerabilityDetail,
};
use blackduck_tui::app::{App, StatefulList, VersionTab};
use blackduck_tui::config::Config;
use blackduck_tui::panels::{
    component_detail, component_row, detail_title, highlighted_row, policy_detail, policy_row,
    project_info, project_row, projects_title, version_info, version_row, versions_title,
    vulnerability_detail, vulnerability_row, Piece, Tone,
};
use blackduck_tui::ui::Severity;

fn texts(line: &[Piece]) -> Vec<(String, Tone)> {
    line.iter().map(|p| (p.text.clone(), p.tone)).collect()
}

fn plain_lines(lines: &[Vec<Piece>]) -> Vec<String> {
    lines
        .iter()
        .map(|l| l.iter().map(|p| p.text.as_str()).collect::<String>())
        .collect()
}

fn project(name: &str, desc: Option<&str>, href: Option<&str>) -> Project {
    Project {
        name: name.to_string(),
        description: desc.map(ToString::to_string),
        meta: href.map(|h| Meta { href: h.to_string(), links: None }),
        ..Project::default()
    }
}

fn app() -> App {
    App::new(Config::default())
}

#[test]
fn project_row_truncates_description_to_forty_chars() {
    let long = "a".repeat(50);
    let row = project_row(&project("core", Some(&long), None));
    assert_eq!(
        texts(&row),
        vec![
            ("core".to_string(), Tone::Plain),
            (format!(" - {}", "a".repeat(40)), Tone::Muted),
        ]
    );
}

#[test]
fn project_row_without_description_is_the_name_alone() {
    assert_eq!(texts(&project_row(&project("core", None, None))), vec![("core".to_string(), Tone::Plain)]);
    assert_eq!(texts(&project_row(&project("core", Some(""), None))), vec![("core".to_string(), Tone::Plain)]);
}

#[test]
fn project_info_shows_selected_project() {
    let mut a = app();
    a.projects = StatefulList::new(vec![project("core", Some("The core"), Some("https://bd/p/1"))]);
    let lines = project_info(&a);
    assert_eq!(
        plain_lines(&lines),
        vec![
            "Name: core",
            "Description: The core",
            "",
            "URL: https://bd/p/1",
            "",
            "Press Enter to view versions",
        ]
    );
    assert_eq!(lines[0][0].tone, Tone::Label);
    assert_eq!(lines[3][1].tone, Tone::Muted);
    assert_eq!(lines[5][0].tone, Tone::Accent);
}

#[test]
fn project_info_loading_and_help() {
    let mut a = app();
    a.loading = true;
    assert_eq!(plain_lines(&project_info(&a)), vec!["Loading projects..."]);
    a.loading = false;
    let help = plain_lines(&project_info(&a));
    assert_eq!(help.len(), 9);
    assert_eq!(help[0], "No project selected");
    assert_eq!(help[2], "Keybindings:");
    assert_eq!(help[3], "  j/↓  move down");
    assert_eq!(help[8], "  q      quit");
}

#[test]
fn titles_count_items() {
    let mut a = app();
    a.projects = StatefulList::new(vec![project("a", None, None), project("b", None, None)]);
    assert_eq!(projects_title(&a), " Projects (2) ");
    assert_eq!(versions_title(&a), " Project - Versions (0) ");
    a.selected_project = Some(project("core", None, None));
    a.versions = StatefulList::new(vec![ProjectVersion::default(); 3]);
    assert_eq!(versions_title(&a), " core - Versions (3) ");
    a.components = StatefulList::new(vec![BomComponent::default(); 12]);
    assert_eq!(detail_title(&a, VersionTab::Components), " Version - Components (12) ");
    a.selected_version = Some(ProjectVersion { version_name: "1.0".to_string(), ..ProjectVersion::default() });
    assert_eq!(detail_title(&a, VersionTab::PolicyViolations), " 1.0 - Policy Violations (0) ");
    assert_eq!(detail_title(&a, VersionTab::Vulnerabilities), " 1.0 - Vulnerabilities (0) ");
}

#[test]
fn version_row_and_info() {
    let v = ProjectVersion {
        version_name: "2.1".to_string(),
        phase: Some("RELEASED".to_string()),
        released_on: Some("2024-01-01".to_string()),
        ..ProjectVersion::default()
    };
    assert_eq!(
        texts(&version_row(&v)),
        vec![("2.1".to_string(), Tone::Plain), (" [RELEASED]".to_string(), Tone::Muted)]
    );
    assert_eq!(texts(&version_row(&ProjectVersion::default()))[1].0, " [-]");
    let mut a = app();
    a.versions = StatefulList::new(vec![v]);
    assert_eq!(
        plain_lines(&version_info(&a)),
        vec![
            "Version: 2.1",
            "Phase:   RELEASED",
            "Distribution: -",
            "Released: 2024-01-01",
            "",
            "Press Enter to view components/vulnerabilities",
            "Press Backspace to go back",
        ]
    );
    a.versions = StatefulList::default();
    assert_eq!(plain_lines(&version_info(&a)), vec!["No version selected"]);
    a.loading = true;
    assert_eq!(plain_lines(&version_info(&a)), vec!["Loading versions..."]);
}

#[test]
fn component_row_tones_follow_review_status() {
    let mut c = BomComponent { component_name: "lib".to_string(), ..BomComponent::default() };
    assert_eq!(
        texts(&component_row(&c)),
        vec![
            ("lib".to_string(), Tone::Plain),
            ("@?".to_string(), Tone::Gray),
            (" ".to_string(), Tone::Plain),
            ("[UNREVIEWED]".to_string(), Tone::Muted),
        ]
    );
    c.review_status = Some("REVIEWED".to_string());
    c.component_version_name = Some("1.2".to_string());
    let row = texts(&component_row(&c));
    assert_eq!(row[1].0, "@1.2");
    assert_eq!(row[3], ("[REVIEWED]".to_string(), Tone::Success));
    c.review_status = Some("DYNAMIC".to_string());
    assert_eq!(texts(&component_row(&c))[3].1, Tone::Warning);
}

#[test]
fn policy_row_pads_status_to_twelve() {
    let mut c = BomComponent { component_name: "lib".to_string(), ..BomComponent::default() };
    assert_eq!(texts(&policy_row(&c))[0], ("[IN_VIOLATION]".to_string(), Tone::Danger));
    c.policy_status = Some("OK".to_string());
    assert_eq!(texts(&policy_row(&c))[0].0, "[OK          ]");
    c.policy_status = Some("NOT_IN_VIOLATION".to_string());
    assert_eq!(texts(&policy_row(&c))[0].0, "[NOT_IN_VIOLATION]");
    assert_eq!(texts(&policy_row(&c))[3].0, "@?");
}

fn vulnerable(sev: Option<&str>) -> Vulnerability {
    scored(sev, None, None)
}

fn scored(sev: Option<&str>, cvss3: Option<f64>, cvss2: Option<f64>) -> Vulnerability {
    Vulnerability {
        vulnerability_with_remediation: Some(VulnerabilityDetail {
            vulnerability_name: "CVE-2024-1".to_string(),
            severity: sev.map(ToString::to_string),
            cvss3_score_bits: cvss3.map(f64::to_bits),
            cvss2_score_bits: cvss2.map(f64::to_bits),
            remediation_status: Some("NEW".to_string()),
            description: Some("Bad".to_string()),
            ..VulnerabilityDetail::default()
        }),
        component_name: Some("openssl".to_string()),
        ..Vulnerability::default()
    }
}

#[test]
fn vulnerability_row_pads_severity_and_picks_score() {
    let v = scored(Some("high"), Some(7.5), Some(5.0));
    assert_eq!(
        texts(&vulnerability_row(&v, Some("7.5"), Some("5.0"))),
        vec![
            ("[high    ]".to_string(), Tone::Rated(Severity::High)),
            (" ".to_string(), Tone::Plain),
            ("CVE-2024-1".to_string(), Tone::WhiteBold),
            (" (7.5)".to_string(), Tone::Muted),
            (" - openssl".to_string(), Tone::Gray),
        ]
    );
    let v2 = scored(Some("high"), None, Some(5.0));
    assert_eq!(texts(&vulnerability_row(&v2, None, Some("5.0")))[3].0, " (5.0)");
    let v0 = vulnerable(Some("high"));
    assert_eq!(texts(&vulnerability_row(&v0, None, None))[3].0, " (?)");
    let unknown = vulnerable(None);
    assert_eq!(texts(&vulnerability_row(&unknown, None, None))[0], ("[?       ]".to_string(), Tone::Rated(Severity::Other)));
    assert_eq!(
        texts(&vulnerability_row(&Vulnerability::default(), None, None)),
        vec![("Unknown vulnerability".to_string(), Tone::Plain)]
    );
}

#[test]
fn vulnerability_detail_lists_present_fields() {
    let mut a = app();
    assert_eq!(plain_lines(&vulnerability_detail(&a, None, None)), vec!["Select a vulnerability"]);
    a.vulnerabilities =
        StatefulList::new(vec![scored(Some("CRITICAL"), Some(9.8), None), Vulnerability::default()]);
    let lines = vulnerability_detail(&a, Some("9.8"), None);
    assert_eq!(
        plain_lines(&lines),
        vec![
            "CVE:       CVE-2024-1",
            "Severity:  CRITICAL",
            "CVSS3:     9.8",
            "Component: openssl",
            "Remediation: NEW",
            "",
            "Description:",
            "Bad",
        ]
    );
    assert_eq!(lines[1][1].tone, Tone::RatedBold(Severity::Critical));
    a.vulnerabilities.selected = 1;
    assert_eq!(plain_lines(&vulnerability_detail(&a, None, None)), vec!["No detail available"]);
}

fn licensed_component() -> BomComponent {
    BomComponent {
        component_name: "lib".to_string(),
        policy_status: Some("IN_VIOLATION".to_string()),
        licenses: Some(vec![
            ComponentLicense { license_name: Some("MIT".to_string()), ..ComponentLicense::default() },
            ComponentLicense {
                licenses: Some(vec![
                    LicenseInfo { name: Some("Apache-2.0".to_string()), spdx_id: None },
                    LicenseInfo { name: None, spdx_id: None },
                    LicenseInfo { name: Some("GPL-2.0".to_string()), spdx_id: None },
                ]),
                ..ComponentLicense::default()
            },
        ]),
        security_risk_profile: Some(RiskCount {
            counts: Some(vec![
                RiskCountEntry { count_type: "HIGH".to_string(), count: 2 },
                RiskCountEntry { count_type: "LOW".to_string(), count: 0 },
            ]),
        }),
        ..BomComponent::default()
    }
}

#[test]
fn component_detail_lists_licenses_and_risks() {
    let mut a = app();
    assert_eq!(plain_lines(&component_detail(&a)), vec!["Select a component"]);
    a.components = StatefulList::new(vec![licensed_component()]);
    let lines = component_detail(&a);
    assert_eq!(
        plain_lines(&lines),
        vec![
            "Name:    lib",
            "Version: -",
            "Review:  -",
            "",
            "Licenses:",
            "  • MIT",
            "  • Apache-2.0",
            "  • GPL-2.0",
            "",
            "Risk Profile:",
            "  Security:    H:2",
            "  License:     none",
            "  Operational: none",
        ]
    );
    assert_eq!(lines[5][1].tone, Tone::White);
}

#[test]
fn policy_detail_shows_status_and_skips_empty_licenses() {
    let mut a = app();
    assert_eq!(plain_lines(&policy_detail(&a)), vec!["Select a policy violation"]);
    let mut c = licensed_component();
    c.licenses = Some(vec![]);
    c.policy_status = None;
    a.policy_violations = StatefulList::new(vec![c]);
    let lines = policy_detail(&a);
    assert_eq!(
        plain_lines(&lines),
        vec![
            "Component: lib",
            "Version:   -",
            "Status:    IN_VIOLATION",
            "Review:    -",
            "",
            "Risk Profile:",
            "  Security:    H:2",
            "  License:     none",
            "  Operational: none",
        ]
    );
    assert_eq!(lines[2][1].tone, Tone::DangerBold);
}

#[test]
fn highlighted_row_finds_selection_among_rows() {
    let mut a = app();
    a.projects = StatefulList::new(vec![
        project("alpha", None, None),
        project("beta", None, None),
        project("alphabet", None, None),
    ]);
    a.search_input = "alph".to_string();
    let rows = a.filtered_projects();
    assert_eq!(highlighted_row(&rows, 2), Some(1));
    assert_eq!(highlighted_row(&rows, 0), Some(0));
    assert_eq!(highlighted_row(&rows, 1), None);
}

#[test]
fn filter_popup_lists_fields_and_focused_options() {
    let mut a = app();
    a.filter.policy_statuses = vec!["IN_VIOLATION".to_string()];
    a.filter_popup.open = true;
    let lines = blackduck_tui::panels::filter_popup_lines(&a);
    assert_eq!(
        plain_lines(&lines),
        vec![
            "> Policy Status (1)",
            "  Review Status (0)",
            "  Approval Status (0)",
            "  Policy Rule Name (0)",
            "",
            "[x] IN_VIOLATION",
            "[ ] IN_VIOLATION_OVERRIDDEN",
            "[ ] NOT_IN_VIOLATION",
            "",
            "Tab: field  j/k: option  Space: toggle  Enter/Esc: close",
        ]
    );
    assert_eq!(lines[5][1].tone, Tone::AccentBold);
    assert_eq!(lines[6][1].tone, Tone::Plain);
}
