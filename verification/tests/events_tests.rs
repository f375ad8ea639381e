use blackduck_tui::api::{BomComponent, Meta, Project, ProjectVersion};
use blackduck_tui::app::{App, AppEvent, Focus, Screen, StatefulList, VersionTab};
use blackduck_tui::config::Config;
use blackduck_tui::events::{
    handle_app_event, handle_key, switch_version_tab, within_limits, Action, Key,
};

fn configured() -> Config {
    let mut cfg = Config::default();
    cfg.server.url = "https://bd.example.com".to_string();
    cfg.server.api_token = Some("tok".to_string());
    cfg
}

fn project(name: &str, href: Option<&str>) -> Project {
    Project {
        name: name.to_string(),
        meta: href.map(|h| Meta { href: h.to_string(), links: None }),
        ..Project::default()
    }
}

fn version(name: &str, href: &str) -> ProjectVersion {
    ProjectVersion {
        version_name: name.to_string(),
        meta: Some(Meta { href: href.to_string(), links: None }),
        ..ProjectVersion::default()
    }
}

#[test]
fn start_screen_depends_on_credentials() {
    let app = App::new(Config::default());
    assert_eq!(app.screen, Screen::Login);
    let mut app = App::new(configured());
    assert_eq!(app.screen, Screen::Projects);
    assert_eq!(app.login_url_input, "https://bd.example.com");
    assert_eq!(app.login_token_input, "tok");
    match app.begin_session() {
        Action::Authenticate { token } => assert_eq!(token, "tok"),
        other => panic!("unexpected {other:?}"),
    }
    assert!(app.loading);
    assert_eq!(app.status_message.as_deref(), Some("Authenticating..."));
}

#[test]
fn ctrl_c_quits_anywhere() {
    let mut app = App::new(Config::default());
    assert_eq!(handle_key(&mut app, Key::Char('c'), true, false), Action::Nothing);
    assert!(app.should_quit);
}

#[test]
fn login_typing_and_connect() {
    let mut app = App::new(Config::default());
    for c in "  https://bd ".chars() {
        handle_key(&mut app, Key::Char(c), false, false);
    }
    handle_key(&mut app, Key::Backspace, false, false);
    assert_eq!(app.login_url_input, "  https://bd");
    assert_eq!(handle_key(&mut app, Key::Enter, false, false), Action::Nothing);
    assert_eq!(app.login_error.as_deref(), Some("API Token is required"));
    handle_key(&mut app, Key::Tab, false, false);
    assert_eq!(app.login_active_field, 1);
    for c in "abc ".chars() {
        handle_key(&mut app, Key::Char(c), false, false);
    }
    let act = handle_key(&mut app, Key::Enter, false, false);
    assert_eq!(
        act,
        Action::Connect { url: "https://bd".to_string(), token: "abc".to_string() }
    );
    assert!(app.loading);
    assert_eq!(app.login_error, None);
    app.remember_credentials("https://bd".to_string(), "abc".to_string());
    assert_eq!(app.config.server.url, "https://bd");
    assert_eq!(app.config.server.api_token.as_deref(), Some("abc"));
}

#[test]
fn login_requires_url() {
    let mut app = App::new(Config::default());
    handle_key(&mut app, Key::Char(' '), false, false);
    assert_eq!(handle_key(&mut app, Key::Enter, false, false), Action::Nothing);
    assert_eq!(app.login_error.as_deref(), Some("Server URL is required"));
    handle_key(&mut app, Key::BackTab, false, false);
    assert_eq!(app.login_active_field, 1);
    handle_key(&mut app, Key::BackTab, false, false);
    assert_eq!(app.login_active_field, 0);
    handle_key(&mut app, Key::Char('q'), false, false);
    assert!(app.should_quit);
}

#[test]
fn connect_failure_is_reported_on_login() {
    let mut app = App::new(Config::default());
    app.loading = true;
    app.connect_failed("bad url");
    assert_eq!(app.login_error.as_deref(), Some("Failed to create client: bad url"));
    assert!(!app.loading);
}

#[test]
fn project_navigation_skips_hidden_rows() {
    let mut app = App::new(configured());
    app.projects = StatefulList::new(vec![
        project("Alpha", None),
        project("beta", None),
        project("ALPHA two", None),
    ]);
    handle_key(&mut app, Key::Char('/'), false, false);
    assert!(app.search_active);
    for c in "alp".chars() {
        handle_key(&mut app, Key::Char(c), false, false);
    }
    handle_key(&mut app, Key::Enter, false, false);
    assert!(!app.search_active);
    assert_eq!(app.search_input, "alp");
    handle_key(&mut app, Key::Char('j'), false, false);
    assert_eq!(app.projects.selected, 2);
    handle_key(&mut app, Key::Down, false, false);
    assert_eq!(app.projects.selected, 2);
    handle_key(&mut app, Key::Char('k'), false, false);
    assert_eq!(app.projects.selected, 0);
    handle_key(&mut app, Key::Up, false, false);
    assert_eq!(app.projects.selected, 0);
}

#[test]
fn search_backspace_on_empty_closes() {
    let mut app = App::new(configured());
    handle_key(&mut app, Key::Char('/'), false, false);
    handle_key(&mut app, Key::Char('x'), false, false);
    handle_key(&mut app, Key::Backspace, false, false);
    assert!(app.search_active);
    assert_eq!(app.search_input, "");
    handle_key(&mut app, Key::Backspace, false, false);
    assert!(!app.search_active);
}

#[test]
fn open_project_then_back() {
    let mut app = App::new(configured());
    app.projects = StatefulList::new(vec![project("p", Some("https://bd/api/projects/1"))]);
    let act = handle_key(&mut app, Key::Enter, false, true);
    assert_eq!(
        act,
        Action::FetchVersions { href: "https://bd/api/projects/1".to_string(), page_size: 100 }
    );
    assert_eq!(app.screen, Screen::Versions);
    assert!(app.loading);
    assert_eq!(app.selected_project.as_ref().map(|p| p.name.as_str()), Some("p"));
    assert_eq!(handle_key(&mut app, Key::Esc, false, true), Action::Nothing);
    assert_eq!(app.screen, Screen::Projects);
    assert!(app.selected_project.is_none());
}

#[test]
fn project_without_href_does_not_open() {
    let mut app = App::new(configured());
    app.projects = StatefulList::new(vec![project("p", None)]);
    assert_eq!(handle_key(&mut app, Key::Enter, false, true), Action::Nothing);
    assert_eq!(app.screen, Screen::Projects);
}

#[test]
fn refresh_requires_authentication() {
    let mut app = App::new(configured());
    assert_eq!(handle_key(&mut app, Key::Char('r'), false, false), Action::Nothing);
    assert!(!app.loading);
    let act = handle_key(&mut app, Key::Char('r'), false, true);
    assert_eq!(act, Action::FetchProjects { page_size: 100 });
    assert_eq!(app.status_message.as_deref(), Some("Loading projects..."));
}

#[test]
fn open_version_and_switch_tabs() {
    let mut app = App::new(configured());
    app.screen = Screen::Versions;
    app.versions = StatefulList::new(vec![version("1.0", "https://bd/v/1")]);
    let act = handle_key(&mut app, Key::Enter, false, true);
    assert_eq!(
        act,
        Action::FetchComponents { href: "https://bd/v/1".to_string(), page_size: 100 }
    );
    assert_eq!(app.screen, Screen::Components);
    assert_eq!(app.version_tab, VersionTab::Components);
    let act = handle_key(&mut app, Key::Tab, false, true);
    assert_eq!(
        act,
        Action::FetchVulnerabilities { href: "https://bd/v/1".to_string(), page_size: 100 }
    );
    assert_eq!(app.screen, Screen::Vulnerabilities);
    let act = handle_key(&mut app, Key::BackTab, false, true);
    assert_eq!(
        act,
        Action::FetchComponents { href: "https://bd/v/1".to_string(), page_size: 100 }
    );
    app.components = StatefulList::new(vec![BomComponent::default()]);
    assert_eq!(switch_version_tab(&mut app, VersionTab::Components), Action::Nothing);
    let act = switch_version_tab(&mut app, VersionTab::PolicyViolations);
    assert_eq!(
        act,
        Action::FetchPolicyViolations { href: "https://bd/v/1".to_string(), page_size: 100 }
    );
    handle_key(&mut app, Key::Right, false, true);
    assert_eq!(app.focus, Focus::Right);
    assert_eq!(handle_key(&mut app, Key::Tab, false, true), Action::Nothing);
    assert_eq!(app.focus, Focus::Left);
    handle_key(&mut app, Key::Backspace, false, true);
    assert_eq!(app.screen, Screen::Versions);
    assert!(app.selected_version.is_none());
}

#[test]
fn loaded_events_fill_lists() {
    let mut app = App::new(configured());
    app.loading = true;
    let act = handle_app_event(
        &mut app,
        AppEvent::ProjectsLoaded { items: vec![project("a", None), project("b", None)], total: 7, offset: 0 },
    );
    assert_eq!(act, Action::Nothing);
    assert!(!app.loading);
    assert_eq!(app.projects.items.len(), 2);
    assert_eq!(app.projects_total, 7);
    assert_eq!(app.status_message.as_deref(), Some("Loaded 2 projects"));
    handle_app_event(
        &mut app,
        AppEvent::ComponentsLoaded { items: vec![BomComponent::default()], total: 150, offset: 100 },
    );
    assert_eq!(
        app.status_message.as_deref(),
        Some("Loaded 1 components (page offset 100, total 150)")
    );
    assert_eq!(app.components_offset, 100);
    handle_app_event(
        &mut app,
        AppEvent::PolicyViolationsLoaded { items: vec![], total: 0, offset: 0 },
    );
    assert_eq!(
        app.status_message.as_deref(),
        Some("Loaded 0 policy violations (page offset 0, total 0)")
    );
}

#[test]
fn error_event_on_projects_returns_to_login() {
    let mut app = App::new(configured());
    app.loading = true;
    handle_app_event(&mut app, AppEvent::Error("Authentication failed (401 Unauthorized): no".to_string()));
    assert_eq!(app.screen, Screen::Login);
    assert_eq!(app.login_error.as_deref(), Some("Authentication failed (401 Unauthorized): no"));
    assert_eq!(app.error_message.as_deref(), Some("Authentication failed (401 Unauthorized): no"));
    assert!(!app.loading);
    let mut other = App::new(configured());
    other.screen = Screen::Versions;
    handle_app_event(&mut other, AppEvent::Error("x".to_string()));
    assert_eq!(other.screen, Screen::Versions);
    assert!(other.login_error.is_none());
}

#[test]
fn auth_success_then_projects_load() {
    let mut app = App::new(configured());
    let act = handle_app_event(&mut app, AppEvent::AuthSuccess);
    assert_eq!(
        act,
        Action::Reauthenticate {
            url: "https://bd.example.com".to_string(),
            token: "tok".to_string(),
            accept_invalid_certs: false
        }
    );
    let act = app.auth_succeeded(true);
    assert_eq!(act, Action::FetchProjects { page_size: 100 });
    assert_eq!(app.screen, Screen::Projects);
    assert_eq!(app.status_message.as_deref(), Some("Loading projects..."));
    app.reauth_failed("timeout");
    assert_eq!(app.error_message.as_deref(), Some("Re-auth failed: timeout"));
    app.client_rebuild_failed("bad");
    assert_eq!(app.error_message.as_deref(), Some("Client rebuild failed: bad"));
}

#[test]
fn policy_rules_are_sorted_and_deduplicated() {
    let mut app = App::new(configured());
    let rules = vec![
        ("zeta".to_string(), "PR~3".to_string()),
        ("alpha".to_string(), "PR~1".to_string()),
        ("alpha".to_string(), "PR~1".to_string()),
        ("mid".to_string(), "PR~2".to_string()),
    ];
    handle_app_event(&mut app, AppEvent::PolicyRulesLoaded(rules));
    let names: Vec<&str> = app.available_policy_rules.iter().map(|r| r.0.as_str()).collect();
    assert_eq!(names, vec!["alpha", "mid", "zeta"]);
}

#[test]
fn number_keys_pick_version_tabs() {
    let mut app = App::new(configured());
    app.screen = Screen::Components;
    app.selected_version = Some(version("1.0", "https://bd/v/1"));
    app.components = StatefulList::new(vec![BomComponent::default()]);
    app.focus = Focus::Right;
    match handle_key(&mut app, Key::Char('2'), false, true) {
        Action::FetchVulnerabilities { href, page_size } => {
            assert_eq!(href, "https://bd/v/1");
            assert_eq!(page_size, 100);
        }
        other => panic!("unexpected {other:?}"),
    }
    assert_eq!(app.version_tab, VersionTab::Vulnerabilities);
    assert_eq!(app.screen, Screen::Vulnerabilities);
    assert!(app.loading);
    let act = handle_key(&mut app, Key::Char('1'), false, true);
    assert_eq!(act, Action::Nothing);
    assert_eq!(app.screen, Screen::Components);
    assert!(matches!(
        handle_key(&mut app, Key::Char('3'), false, true),
        Action::FetchPolicyViolations { .. }
    ));
    assert_eq!(app.version_tab, VersionTab::PolicyViolations);
}

#[test]
fn h_and_l_move_focus_on_version_tabs() {
    let mut app = App::new(configured());
    app.screen = Screen::Components;
    assert_eq!(handle_key(&mut app, Key::Char('l'), false, true), Action::Nothing);
    assert_eq!(app.focus, Focus::Right);
    handle_key(&mut app, Key::Char('h'), false, true);
    assert_eq!(app.focus, Focus::Left);
}

#[test]
fn arrow_and_hl_keys_move_focus_on_lists() {
    let mut app = App::new(configured());
    assert_eq!(app.screen, Screen::Projects);
    assert_eq!(handle_key(&mut app, Key::Right, false, true), Action::Nothing);
    assert_eq!(app.focus, Focus::Right);
    handle_key(&mut app, Key::Char('h'), false, true);
    assert_eq!(app.focus, Focus::Left);
    app.screen = Screen::Versions;
    handle_key(&mut app, Key::Char('l'), false, true);
    assert_eq!(app.focus, Focus::Right);
    handle_key(&mut app, Key::Left, false, true);
    assert_eq!(app.focus, Focus::Left);
    assert_eq!(app.screen, Screen::Versions);
}

fn detail_app(components: Vec<BomComponent>) -> App {
    let mut app = App::new(configured());
    app.screen = Screen::Components;
    app.selected_version = Some(version("1.0", "https://bd/v/1"));
    app.components = StatefulList::new(components);
    app
}

fn reviewed(name: &str, review: &str) -> BomComponent {
    BomComponent {
        component_name: name.to_string(),
        review_status: Some(review.to_string()),
        ..BomComponent::default()
    }
}

#[test]
fn f_opens_filter_popup_and_space_toggles() {
    let mut app = detail_app(vec![reviewed("a", "REVIEWED"), reviewed("b", "UNREVIEWED")]);
    assert_eq!(handle_key(&mut app, Key::Char('f'), false, true), Action::Nothing);
    assert!(app.filter_popup.open);
    handle_key(&mut app, Key::Tab, false, true);
    assert_eq!(app.filter_popup.focused_field, 1);
    assert_eq!(app.filter_popup.focused_option, 0);
    // Space toggles "UNREVIEWED" into the review criterion; the hidden
    // selection moves to the first visible row.
    handle_key(&mut app, Key::Char(' '), false, true);
    assert_eq!(app.filter.review_statuses, vec!["UNREVIEWED".to_string()]);
    assert_eq!(app.components.selected, 1);
    // j moves to "REVIEWED"; toggling it too shows both rows again.
    handle_key(&mut app, Key::Char('j'), false, true);
    assert_eq!(app.filter_popup.focused_option, 1);
    handle_key(&mut app, Key::Char(' '), false, true);
    assert_eq!(app.filter.review_statuses.len(), 2);
    assert_eq!(app.components.selected, 1);
    // Enter closes the popup and keeps the filter.
    handle_key(&mut app, Key::Enter, false, true);
    assert!(!app.filter_popup.open);
    assert_eq!(app.filter.review_statuses.len(), 2);
    // With the popup closed, j moves the list cursor again.
    handle_key(&mut app, Key::Char('k'), false, true);
    assert_eq!(app.components.selected, 0);
}

#[test]
fn popup_esc_closes_and_rule_field_toggles_ids() {
    let mut app = detail_app(vec![]);
    app.available_policy_rules = vec![
        ("No GPL".to_string(), "PR~1".to_string()),
        ("No AGPL".to_string(), "PR~2".to_string()),
    ];
    handle_key(&mut app, Key::Char('f'), false, true);
    handle_key(&mut app, Key::BackTab, false, true);
    assert_eq!(app.filter_popup.focused_field, 3);
    handle_key(&mut app, Key::Up, false, true);
    assert_eq!(app.filter_popup.focused_option, 1);
    handle_key(&mut app, Key::Char(' '), false, true);
    assert_eq!(app.filter.rule_ids, vec!["PR~2".to_string()]);
    handle_key(&mut app, Key::Esc, false, true);
    assert!(!app.filter_popup.open);
    assert_eq!(app.screen, Screen::Components);
}

#[test]
fn n_and_p_page_through_a_tab() {
    let mut app = detail_app(vec![BomComponent::default()]);
    app.components_total = 250;
    match handle_key(&mut app, Key::Char('n'), false, true) {
        Action::FetchPage { tab, href, offset, page_size } => {
            assert_eq!(tab, VersionTab::Components);
            assert_eq!(href, "https://bd/v/1");
            assert_eq!(offset, 100);
            assert_eq!(page_size, 100);
        }
        other => panic!("unexpected {other:?}"),
    }
    assert!(app.loading);
    handle_app_event(
        &mut app,
        AppEvent::ComponentsLoaded { items: vec![BomComponent::default()], total: 250, offset: 200 },
    );
    assert_eq!(app.components_offset, 200);
    assert_eq!(handle_key(&mut app, Key::Char('n'), false, true), Action::Nothing);
    match handle_key(&mut app, Key::Char('p'), false, true) {
        Action::FetchPage { offset, .. } => assert_eq!(offset, 100),
        other => panic!("unexpected {other:?}"),
    }
    app.components_offset = 0;
    app.loading = false;
    assert_eq!(handle_key(&mut app, Key::Char('p'), false, true), Action::Nothing);
    assert!(!app.loading);
}

#[test]
fn within_limits_flags_cursor_overflow() {
    let mut app = App::new(Config::default());
    assert!(within_limits(&app, Key::Tab, false));
    app.login_active_field = usize::MAX;
    assert!(!within_limits(&app, Key::Tab, false));
    assert!(within_limits(&app, Key::Char('c'), true));
    let mut app = detail_app(vec![]);
    app.filter_popup.open = true;
    app.filter_popup.focused_option = usize::MAX;
    assert!(!within_limits(&app, Key::Down, false));
    assert!(within_limits(&app, Key::Enter, false));
}
