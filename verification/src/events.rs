//! The application's decisions: how a key press or a finished background
//! task changes the state, and which outside work (network requests) the
//! caller must then perform.
use vstd::prelude::*;
use crate::config::{Config, ServerConfig};
use crate::api::types::BomComponent;
use crate::app::{
    back_step, clamped_selection, field_at, lemma_row_positions, or_empty, positions, texts, App,
    AppEvent, ComponentFilter, FilterField, FilterPopup, Focus, Screen, StatefulList, VersionTab,
    tab_after, tab_before,
};
use crate::rules::{organize_policy_rules, organized};
use crate::selection::{move_down, move_up, step_down, step_up};
use crate::text::{concat, decimal, decimal_string, pop_char, push_char, trim, trim_spec};

verus! {

/// A key press, as the application distinguishes them.
#[derive(Debug, Clone, Copy, PartialEq, Eq, Structural)]
pub enum Key {
    Char(char),
    Tab,
    BackTab,
    Enter,
    Backspace,
    Esc,
    Up,
    Down,
    Left,
    Right,
    Other,
}

/// Outside work the caller performs after a step.
#[derive(Debug, PartialEq, Eq)]
pub enum Action {
    /// Nothing to do.
    Nothing,
    /// Authenticate the current client with this API token; report
    /// `AppEvent::AuthSuccess` or `AppEvent::Error`.
    Authenticate { token: String },
    /// Build a client for `url`; on failure call `App::connect_failed`,
    /// otherwise authenticate it with `token` in the background, call
    /// `App::remember_credentials` and save the configuration.
    Connect { url: String, token: String },
    /// Rebuild the client for `url` and authenticate it with `token`; on
    /// failure call `App::client_rebuild_failed` or `App::reauth_failed`,
    /// otherwise `App::auth_succeeded`.
    Reauthenticate { url: String, token: String, accept_invalid_certs: bool },
    /// Fetch the first page of projects; report `ProjectsLoaded` or `Error`.
    FetchProjects { page_size: u32 },
    /// Fetch the first page of a project's versions.
    FetchVersions { href: String, page_size: u32 },
    /// Fetch the first page of a version's components.
    FetchComponents { href: String, page_size: u32 },
    /// Fetch the first page of a version's vulnerabilities.
    FetchVulnerabilities { href: String, page_size: u32 },
    /// Fetch the first page of a version's policy violations.
    FetchPolicyViolations { href: String, page_size: u32 },
    /// Fetch the page at `offset` of the list a version tab shows.
    FetchPage { tab: VersionTab, href: String, offset: u32, page_size: u32 },
}

/// The key moves the cursor down (`j` or Down).
pub open spec fn is_down(key: Key) -> bool {
    key == Key::Char('j') || key == Key::Down
}

/// The key moves the cursor up (`k` or Up).
pub open spec fn is_up(key: Key) -> bool {
    key == Key::Char('k') || key == Key::Up
}

/// The key navigates back (Backspace or Esc).
pub open spec fn is_back(key: Key) -> bool {
    key == Key::Backspace || key == Key::Esc
}

/// The other panel.
pub open spec fn other_focus(f: Focus) -> Focus {
    if f == Focus::Left {
        Focus::Right
    } else {
        Focus::Left
    }
}

/// The screen that shows a version tab.
pub open spec fn screen_of(t: VersionTab) -> Screen {
    match t {
        VersionTab::Components => Screen::Components,
        VersionTab::Vulnerabilities => Screen::Vulnerabilities,
        VersionTab::PolicyViolations => Screen::PolicyViolations,
    }
}

/// `s` with its last character removed, or unchanged when empty.
pub open spec fn backspaced(s: Seq<char>) -> Seq<char> {
    if s.len() > 0 {
        s.drop_last()
    } else {
        s
    }
}

/// `new` is `old` with the search input emptied and opened.
pub open spec fn search_opened(old: App, new: App) -> bool {
    new == (App { search_active: true, search_input: new.search_input, ..old })
        && new.search_input@.len() == 0
}

/// A key typed while the search input is open: Esc or Enter closes it,
/// a character is appended, Backspace removes the last character (closing
/// the search when there is none), anything else is ignored.
pub open spec fn search_step(old: App, new: App, key: Key) -> bool {
    match key {
        Key::Esc | Key::Enter => new == (App { search_active: false, ..old }),
        Key::Char(c) => new == (App { search_input: new.search_input, ..old })
            && new.search_input@ == old.search_input@.push(c),
        Key::Backspace => new == (App {
            search_input: new.search_input,
            search_active: old.search_active && old.search_input@.len() > 0,
            ..old
        }) && new.search_input@ == backspaced(old.search_input@),
        _ => new == old,
    }
}

/// Starting to load the project list: only with an authenticated client,
/// it marks loading, shows a status, empties the list and asks for the
/// first page.
pub open spec fn load_projects_step(old: App, new: App, act: Action, authenticated: bool) -> bool {
    if !authenticated {
        new == old && act == Action::Nothing
    } else {
        &&& new == (App {
            loading: true,
            status_message: new.status_message,
            error_message: None,
            projects: new.projects,
            ..old
        })
        &&& new.projects.is_cleared()
        &&& (new.status_message matches Some(m) && m@ == "Loading projects..."@)
        &&& act == (Action::FetchProjects { page_size: old.config.tui.page_size })
    }
}

/// A key on the login form.
pub open spec fn login_step(old: App, new: App, key: Key, act: Action) -> bool {
    let url = trim_spec(old.login_url_input@);
    let token = trim_spec(old.login_token_input@);
    let on_url = old.login_active_field == 0;
    if old.search_active {
        new == old && act == Action::Nothing
    } else if key == Key::Char('q') {
        new == (App { should_quit: true, ..old }) && act == Action::Nothing
    } else if key == Key::Tab {
        new == (App { login_active_field: ((old.login_active_field + 1) % 2) as usize, ..old })
            && act == Action::Nothing
    } else if key == Key::BackTab {
        new == (App { login_active_field: if on_url { 1 } else { 0 }, ..old }) && act
            == Action::Nothing
    } else if key is Char {
        &&& act == Action::Nothing
        &&& on_url ==> new == (App { login_url_input: new.login_url_input, ..old })
            && new.login_url_input@ == old.login_url_input@.push(key->Char_0)
        &&& !on_url ==> new == (App { login_token_input: new.login_token_input, ..old })
            && new.login_token_input@ == old.login_token_input@.push(key->Char_0)
    } else if key == Key::Backspace {
        &&& act == Action::Nothing
        &&& on_url ==> new == (App { login_url_input: new.login_url_input, ..old })
            && new.login_url_input@ == backspaced(old.login_url_input@)
        &&& !on_url ==> new == (App { login_token_input: new.login_token_input, ..old })
            && new.login_token_input@ == backspaced(old.login_token_input@)
    } else if key == Key::Enter {
        if url.len() == 0 {
            &&& new == (App { login_error: new.login_error, ..old })
            &&& (new.login_error matches Some(e) && e@ == "Server URL is required"@)
            &&& act == Action::Nothing
        } else if token.len() == 0 {
            &&& new == (App { login_error: new.login_error, ..old })
            &&& (new.login_error matches Some(e) && e@ == "API Token is required"@)
            &&& act == Action::Nothing
        } else {
            &&& new == (App { login_error: None, loading: true, ..old })
            &&& (act matches Action::Connect { url: u, token: t } && u@ == url && t@ == token)
        }
    } else {
        new == old && act == Action::Nothing
    }
}

/// `new` is `old` with the project cursor at `sel`.
pub open spec fn with_project_cursor(old: App, sel: int) -> App {
    App { projects: StatefulList { selected: sel as usize, ..old.projects }, ..old }
}

/// `new` is `old` with the version cursor at `sel`.
pub open spec fn with_version_cursor(old: App, sel: int) -> App {
    App { versions: StatefulList { selected: sel as usize, ..old.versions }, ..old }
}

/// Opening the selected project: when the cursor is on a project that has
/// an href, that project becomes the selected one, the version list is
/// emptied and requested; otherwise nothing happens.
pub open spec fn open_project_step(old: App, new: App, act: Action) -> bool {
    let sel = old.projects.selected as int;
    let items = old.projects.items@;
    if sel < items.len() && items[sel].meta is Some {
        &&& new == (App {
            selected_project: new.selected_project,
            loading: true,
            screen: Screen::Versions,
            versions: new.versions,
            ..old
        })
        &&& new.versions.is_cleared()
        &&& (new.selected_project matches Some(p) && p.same_as(items[sel]))
        &&& (act matches Action::FetchVersions { href, page_size } && Some(href@)
            == items[sel].href_spec() && page_size == old.config.tui.page_size)
    } else {
        new == old && act == Action::Nothing
    }
}

/// A key on the project list. The arrow keys Left and Right (or `h` and
/// `l`) move the focus to the left or right panel.
pub open spec fn projects_step(
    old: App,
    new: App,
    key: Key,
    act: Action,
    authenticated: bool,
) -> bool {
    let left = old.focus == Focus::Left;
    let sel = old.projects.selected as int;
    if old.search_active {
        search_step(old, new, key) && act == Action::Nothing
    } else if key == Key::Char('q') {
        new == (App { should_quit: true, ..old }) && act == Action::Nothing
    } else if is_down(key) {
        new == (if left {
            with_project_cursor(old, step_down(old.visible_projects(), sel))
        } else {
            old
        }) && act == Action::Nothing
    } else if is_up(key) {
        new == (if left {
            with_project_cursor(old, step_up(old.visible_projects(), sel))
        } else {
            old
        }) && act == Action::Nothing
    } else if key == Key::Enter {
        open_project_step(old, new, act)
    } else if key == Key::Char('r') {
        load_projects_step(old, new, act, authenticated)
    } else if key == Key::Left || key == Key::Char('h') {
        new == (App { focus: Focus::Left, ..old }) && act == Action::Nothing
    } else if key == Key::Right || key == Key::Char('l') {
        new == (App { focus: Focus::Right, ..old }) && act == Action::Nothing
    } else if key == Key::Tab {
        new == (App { focus: other_focus(old.focus), ..old }) && act == Action::Nothing
    } else if key == Key::Char('/') {
        search_opened(old, new) && act == Action::Nothing
    } else {
        new == old && act == Action::Nothing
    }
}

/// Opening the selected version: when the cursor is on a version that has
/// an href, it becomes the selected one, the components tab is shown, all
/// three lists are emptied and the components are requested; otherwise
/// nothing happens.
pub open spec fn open_version_step(old: App, new: App, act: Action) -> bool {
    let sel = old.versions.selected as int;
    let items = old.versions.items@;
    if sel < items.len() && items[sel].meta is Some {
        &&& new == (App {
            selected_version: new.selected_version,
            loading: true,
            screen: Screen::Components,
            version_tab: VersionTab::Components,
            components: new.components,
            vulnerabilities: new.vulnerabilities,
            policy_violations: new.policy_violations,
            ..old
        })
        &&& new.components.is_cleared()
        &&& new.vulnerabilities.is_cleared()
        &&& new.policy_violations.is_cleared()
        &&& (new.selected_version matches Some(v) && v.same_as(items[sel]))
        &&& (act matches Action::FetchComponents { href, page_size } && Some(href@)
            == items[sel].href_spec() && page_size == old.config.tui.page_size)
    } else {
        new == old && act == Action::Nothing
    }
}

/// A key on the version list. The arrow keys Left and Right (or `h` and
/// `l`) move the focus to the left or right panel.
pub open spec fn versions_step(old: App, new: App, key: Key, act: Action) -> bool {
    let left = old.focus == Focus::Left;
    let sel = old.versions.selected as int;
    if old.search_active {
        search_step(old, new, key) && act == Action::Nothing
    } else if key == Key::Char('q') {
        new == (App { should_quit: true, ..old }) && act == Action::Nothing
    } else if is_down(key) {
        new == (if left {
            with_version_cursor(old, step_down(old.visible_versions(), sel))
        } else {
            old
        }) && act == Action::Nothing
    } else if is_up(key) {
        new == (if left {
            with_version_cursor(old, step_up(old.visible_versions(), sel))
        } else {
            old
        }) && act == Action::Nothing
    } else if key == Key::Enter {
        open_version_step(old, new, act)
    } else if is_back(key) {
        back_step(old, new) && act == Action::Nothing
    } else if key == Key::Left || key == Key::Char('h') {
        new == (App { focus: Focus::Left, ..old }) && act == Action::Nothing
    } else if key == Key::Right || key == Key::Char('l') {
        new == (App { focus: Focus::Right, ..old }) && act == Action::Nothing
    } else if key == Key::Tab {
        new == (App { focus: other_focus(old.focus), ..old }) && act == Action::Nothing
    } else if key == Key::Char('/') {
        search_opened(old, new) && act == Action::Nothing
    } else {
        new == old && act == Action::Nothing
    }
}

/// The href of the selected version, if there is one.
pub open spec fn selected_version_href(app: App) -> Option<Seq<char>> {
    match app.selected_version {
        Some(v) => v.href_spec(),
        None => None,
    }
}

/// Switching to tab `t`: the tab and its screen are shown and the search
/// text emptied; when the tab's list is empty and the selected version has
/// an href, loading starts and the list is requested.
pub open spec fn switch_tab_step(old: App, new: App, act: Action, t: VersionTab) -> bool {
    let ps = old.config.tui.page_size;
    let empty = match t {
        VersionTab::Components => old.components.items@.len() == 0,
        VersionTab::Vulnerabilities => old.vulnerabilities.items@.len() == 0,
        VersionTab::PolicyViolations => old.policy_violations.items@.len() == 0,
    };
    let fetch = selected_version_href(old) is Some && empty;
    &&& new == (App {
        version_tab: t,
        screen: screen_of(t),
        search_input: new.search_input,
        loading: if fetch { true } else { old.loading },
        ..old
    })
    &&& new.search_input@.len() == 0
    &&& !fetch ==> act == Action::Nothing
    &&& (fetch && t == VersionTab::Components) ==> (act matches Action::FetchComponents {
        href,
        page_size,
    } && Some(href@) == selected_version_href(old) && page_size == ps)
    &&& (fetch && t == VersionTab::Vulnerabilities) ==> (act matches Action::FetchVulnerabilities {
        href,
        page_size,
    } && Some(href@) == selected_version_href(old) && page_size == ps)
    &&& (fetch && t == VersionTab::PolicyViolations) ==> (
    act matches Action::FetchPolicyViolations { href, page_size } && Some(href@)
        == selected_version_href(old) && page_size == ps)
}

/// `old` with the cursor of the current tab's list moved down (`down`)
/// or up through that list's visible rows.
pub open spec fn detail_cursor_moved(old: App, down: bool) -> App {
    match old.version_tab {
        VersionTab::Components => {
            let vis = old.visible_components();
            let sel = old.components.selected as int;
            App {
                components: StatefulList {
                    selected: (if down { step_down(vis, sel) } else { step_up(vis, sel) }) as usize,
                    ..old.components
                },
                ..old
            }
        },
        VersionTab::Vulnerabilities => {
            let vis = old.visible_vulnerabilities();
            let sel = old.vulnerabilities.selected as int;
            App {
                vulnerabilities: StatefulList {
                    selected: (if down { step_down(vis, sel) } else { step_up(vis, sel) }) as usize,
                    ..old.vulnerabilities
                },
                ..old
            }
        },
        VersionTab::PolicyViolations => {
            let vis = old.visible_policy_violations();
            let sel = old.policy_violations.selected as int;
            App {
                policy_violations: StatefulList {
                    selected: (if down { step_down(vis, sel) } else { step_up(vis, sel) }) as usize,
                    ..old.policy_violations
                },
                ..old
            }
        },
    }
}

/// The values offered for a filter field: the fixed status values, or the
/// IDs of the offered policy rules.
pub open spec fn option_values(app: App, f: FilterField) -> Seq<Seq<char>> {
    match f {
        FilterField::PolicyStatus => seq![
            "IN_VIOLATION"@,
            "IN_VIOLATION_OVERRIDDEN"@,
            "NOT_IN_VIOLATION"@,
        ],
        FilterField::ReviewStatus => seq!["UNREVIEWED"@, "REVIEWED"@, "DYNAMIC"@, "MANUAL"@],
        FilterField::ApprovalStatus => seq!["APPROVED"@, "REJECTED"@, "PENDING"@],
        FilterField::PolicyRuleName => app.available_policy_rules@.map_values(
            |r: (String, String)| r.1@,
        ),
    }
}

/// The offset of the page shown on a tab and the total number of entries
/// the server reported for that list.
pub open spec fn page_of(app: App, t: VersionTab) -> (u32, u64) {
    match t {
        VersionTab::Components => (app.components_offset, app.components_total),
        VersionTab::Vulnerabilities => (app.vulnerabilities_offset, app.vulnerabilities_total),
        VersionTab::PolicyViolations => (
            app.policy_violations_offset,
            app.policy_violations_total,
        ),
    }
}

/// Paging the current tab's list forward (`next`) or back. The next page
/// starts one page size further on and exists when that offset is below
/// the reported total (and fits an offset); the previous page starts one
/// page size earlier (at least at 0) and exists when the current page is
/// not the first. When it exists and the selected version has an href,
/// loading starts and that page is requested; otherwise nothing happens.
pub open spec fn page_step(old: App, new: App, act: Action, next: bool) -> bool {
    let t = old.version_tab;
    let offset = page_of(old, t).0;
    let total = page_of(old, t).1;
    let ps = old.config.tui.page_size;
    let target: int = if next {
        offset + ps
    } else if offset >= ps {
        offset - ps
    } else {
        0
    };
    let exists = if next {
        offset + ps < total && offset + ps <= u32::MAX
    } else {
        offset > 0
    };
    if exists && selected_version_href(old) is Some {
        &&& new == (App { loading: true, ..old })
        &&& (act matches Action::FetchPage { tab, href, offset: o, page_size } && tab == t
            && Some(href@) == selected_version_href(old) && o == target && page_size == ps)
    } else {
        new == old && act == Action::Nothing
    }
}

/// `new` is `old` with value `v` toggled in the criterion of field `f`.
pub open spec fn filter_toggled(
    old: ComponentFilter,
    new: ComponentFilter,
    f: FilterField,
    v: Seq<char>,
) -> bool {
    match f {
        FilterField::PolicyStatus => new == (ComponentFilter {
            policy_statuses: new.policy_statuses,
            ..old
        }) && texts(new.policy_statuses@) == crate::app::toggled(texts(old.policy_statuses@), v),
        FilterField::ReviewStatus => new == (ComponentFilter {
            review_statuses: new.review_statuses,
            ..old
        }) && texts(new.review_statuses@) == crate::app::toggled(texts(old.review_statuses@), v),
        FilterField::ApprovalStatus => new == (ComponentFilter {
            approval_statuses: new.approval_statuses,
            ..old
        }) && texts(new.approval_statuses@) == crate::app::toggled(
            texts(old.approval_statuses@),
            v,
        ),
        FilterField::PolicyRuleName => new == (ComponentFilter { rule_ids: new.rule_ids, ..old })
            && texts(new.rule_ids@) == crate::app::toggled(texts(old.rule_ids@), v),
    }
}

/// `old` with the filter popup replaced by `p`.
pub open spec fn with_popup(old: App, p: FilterPopup) -> App {
    App { filter_popup: p, ..old }
}

/// A key while the filter popup is open: Esc, Enter or `f` close it; Tab
/// and BackTab move to the next or previous field (focusing its first
/// option); `j`/Down and `k`/Up cycle through the field's options; Space
/// toggles the focused option's value in the field's criterion and keeps
/// the cursors on visible rows; other keys do nothing.
pub open spec fn popup_step(old: App, new: App, key: Key) -> bool {
    let p = old.filter_popup;
    let f = field_at(p.focused_field as int);
    let values = option_values(old, f);
    let n = values.len();
    let o = p.focused_option;
    if key == Key::Esc || key == Key::Enter || key == Key::Char('f') {
        new == with_popup(old, FilterPopup { open: false, ..p })
    } else if key == Key::Tab {
        new == with_popup(
            old,
            FilterPopup { focused_field: ((p.focused_field + 1) % 4) as usize, focused_option: 0, ..p },
        )
    } else if key == Key::BackTab {
        new == with_popup(
            old,
            FilterPopup { focused_field: ((p.focused_field + 3) % 4) as usize, focused_option: 0, ..p },
        )
    } else if is_down(key) {
        new == (if n > 0 {
            with_popup(old, FilterPopup { focused_option: ((o + 1) % (n as int)) as usize, ..p })
        } else {
            old
        })
    } else if is_up(key) {
        new == (if n > 0 {
            with_popup(old, FilterPopup { focused_option: ((o + n - 1) % (n as int)) as usize, ..p })
        } else {
            old
        })
    } else if key == Key::Char(' ') {
        if o < n {
            &&& filter_toggled(old.filter, new.filter, f, values[o as int])
            &&& new == clamped_selection(App { filter: new.filter, ..old })
        } else {
            new == old
        }
    } else {
        new == old
    }
}

/// A key on a version's tabs (components, vulnerabilities, policy
/// violations). `1`, `2` and `3` show the components, vulnerabilities and
/// policy violations tab; `h` and `l` move the focus like the arrow keys;
/// `f` opens the filter popup, which then takes the keys (`popup_step`);
/// `n` and `p` show the next and previous page (`page_step`).
pub open spec fn detail_step(old: App, new: App, key: Key, act: Action) -> bool {
    let left = old.focus == Focus::Left;
    if old.search_active {
        search_step(old, new, key) && act == Action::Nothing
    } else if old.filter_popup.open {
        popup_step(old, new, key) && act == Action::Nothing
    } else if key == Key::Char('q') {
        new == (App { should_quit: true, ..old }) && act == Action::Nothing
    } else if key == Key::Char('f') {
        new == with_popup(old, FilterPopup { open: true, ..old.filter_popup }) && act
            == Action::Nothing
    } else if key == Key::Char('n') {
        page_step(old, new, act, true)
    } else if key == Key::Char('p') {
        page_step(old, new, act, false)
    } else if is_down(key) {
        new == (if left { detail_cursor_moved(old, true) } else { old }) && act == Action::Nothing
    } else if is_up(key) {
        new == (if left { detail_cursor_moved(old, false) } else { old }) && act
            == Action::Nothing
    } else if key == Key::Tab {
        if left {
            switch_tab_step(old, new, act, tab_after(old.version_tab))
        } else {
            new == (App { focus: Focus::Left, ..old }) && act == Action::Nothing
        }
    } else if key == Key::BackTab {
        if left {
            switch_tab_step(old, new, act, tab_before(old.version_tab))
        } else {
            new == old && act == Action::Nothing
        }
    } else if key == Key::Char('1') {
        switch_tab_step(old, new, act, VersionTab::Components)
    } else if key == Key::Char('2') {
        switch_tab_step(old, new, act, VersionTab::Vulnerabilities)
    } else if key == Key::Char('3') {
        switch_tab_step(old, new, act, VersionTab::PolicyViolations)
    } else if key == Key::Left || key == Key::Char('h') {
        new == (App { focus: Focus::Left, ..old }) && act == Action::Nothing
    } else if key == Key::Right || key == Key::Char('l') {
        new == (App { focus: Focus::Right, ..old }) && act == Action::Nothing
    } else if is_back(key) {
        back_step(old, new) && act == Action::Nothing
    } else if key == Key::Char('/') {
        search_opened(old, new) && act == Action::Nothing
    } else {
        new == old && act == Action::Nothing
    }
}

/// A key press: Ctrl-C quits anywhere; otherwise the current screen
/// decides.
pub open spec fn key_step(
    old: App,
    new: App,
    key: Key,
    ctrl: bool,
    authenticated: bool,
    act: Action,
) -> bool {
    if ctrl && key == Key::Char('c') {
        new == (App { should_quit: true, ..old }) && act == Action::Nothing
    } else {
        match old.screen {
            Screen::Login => login_step(old, new, key, act),
            Screen::Projects => projects_step(old, new, key, act, authenticated),
            Screen::Versions => versions_step(old, new, key, act),
            _ => detail_step(old, new, key, act),
        }
    }
}

/// The key press can be handled without arithmetic overflow.
pub open spec fn key_within_limits(app: App, key: Key, ctrl: bool) -> bool {
    let p = app.filter_popup;
    let n = option_values(app, field_at(p.focused_field as int)).len();
    let quits = ctrl && key == Key::Char('c');
    let in_popup = app.screen != Screen::Login && app.screen != Screen::Projects && app.screen
        != Screen::Versions && !app.search_active && p.open && !quits;
    &&& (app.screen == Screen::Login && !app.search_active && key == Key::Tab && !quits)
        ==> app.login_active_field < usize::MAX
    &&& (in_popup && key == Key::Tab) ==> p.focused_field < usize::MAX
    &&& (in_popup && key == Key::BackTab) ==> p.focused_field + 4 <= usize::MAX
    &&& (in_popup && is_down(key) && n > 0) ==> p.focused_option < usize::MAX
    &&& (in_popup && is_up(key) && n > 0) ==> p.focused_option + n <= usize::MAX
}

fn move_project_cursor(app: &mut App, down: bool)
    ensures
        *final(app) == with_project_cursor(
            *old(app),
            if down {
                step_down(old(app).visible_projects(), old(app).projects.selected as int)
            } else {
                step_up(old(app).visible_projects(), old(app).projects.selected as int)
            },
        ),
{
    let rows = app.filtered_projects();
    let vis = positions(&rows);
    proof {
        lemma_row_positions(rows@, app.projects.items@, app.visible_projects());
    }
    let sel = if down {
        move_down(&vis, app.projects.selected)
    } else {
        move_up(&vis, app.projects.selected)
    };
    app.projects.selected = sel;
}

fn move_version_cursor(app: &mut App, down: bool)
    ensures
        *final(app) == with_version_cursor(
            *old(app),
            if down {
                step_down(old(app).visible_versions(), old(app).versions.selected as int)
            } else {
                step_up(old(app).visible_versions(), old(app).versions.selected as int)
            },
        ),
{
    let rows = app.filtered_versions();
    let vis = positions(&rows);
    proof {
        lemma_row_positions(rows@, app.versions.items@, app.visible_versions());
    }
    let sel = if down {
        move_down(&vis, app.versions.selected)
    } else {
        move_up(&vis, app.versions.selected)
    };
    app.versions.selected = sel;
}

fn handle_search(app: &mut App, key: Key)
    ensures
        search_step(*old(app), *final(app), key),
{
    match key {
        Key::Esc | Key::Enter => {
            app.search_active = false;
        },
        Key::Char(c) => {
            push_char(&mut app.search_input, c);
        },
        Key::Backspace => {
            if pop_char(&mut app.search_input).is_none() {
                app.search_active = false;
            }
        },
        _ => {},
    }
}

fn open_search(app: &mut App)
    ensures
        search_opened(*old(app), *final(app)),
{
    app.search_active = true;
    app.search_input = String::new();
}

/// Starts loading the project list when the client is authenticated.
pub fn load_projects(app: &mut App, authenticated: bool) -> (act: Action)
    ensures
        load_projects_step(*old(app), *final(app), act, authenticated),
{
    if !authenticated {
        return Action::Nothing;
    }
    app.loading = true;
    app.set_status(String::from_str("Loading projects..."));
    app.projects = StatefulList::default();
    Action::FetchProjects { page_size: app.config.tui.page_size }
}

fn handle_login(app: &mut App, key: Key) -> (act: Action)
    requires
        !old(app).search_active && old(app).screen == Screen::Login && key == Key::Tab
            ==> old(app).login_active_field < usize::MAX,
        old(app).screen == Screen::Login,
    ensures
        login_step(*old(app), *final(app), key, act),
{
    if app.search_active {
        return Action::Nothing;
    }
    match key {
        Key::Char('q') => {
            app.should_quit = true;
        },
        Key::Tab => {
            app.login_active_field = (app.login_active_field + 1) % 2;
        },
        Key::BackTab => {
            app.login_active_field = if app.login_active_field == 0 { 1 } else { 0 };
        },
        Key::Char(c) => {
            if app.login_active_field == 0 {
                push_char(&mut app.login_url_input, c);
            } else {
                push_char(&mut app.login_token_input, c);
            }
        },
        Key::Backspace => {
            if app.login_active_field == 0 {
                let _ = pop_char(&mut app.login_url_input);
            } else {
                let _ = pop_char(&mut app.login_token_input);
            }
        },
        Key::Enter => {
            let url = trim(app.login_url_input.as_str());
            let token = trim(app.login_token_input.as_str());
            if url.as_str().is_empty() {
                app.login_error = Some(String::from_str("Server URL is required"));
                return Action::Nothing;
            }
            if token.as_str().is_empty() {
                app.login_error = Some(String::from_str("API Token is required"));
                return Action::Nothing;
            }
            app.login_error = None;
            app.loading = true;
            return Action::Connect { url, token };
        },
        _ => {},
    }
    Action::Nothing
}

fn open_selected_project(app: &mut App) -> (act: Action)
    ensures
        open_project_step(*old(app), *final(app), act),
{
    let (project, href) = match app.projects.selected_item() {
        Some(p) => match p.href() {
            Some(h) => (p.clone(), String::from_str(h)),
            None => {
                return Action::Nothing;
            },
        },
        None => {
            return Action::Nothing;
        },
    };
    app.selected_project = Some(project);
    app.loading = true;
    app.screen = Screen::Versions;
    app.versions = StatefulList::default();
    Action::FetchVersions { href, page_size: app.config.tui.page_size }
}

fn handle_projects(app: &mut App, key: Key, authenticated: bool) -> (act: Action)
    ensures
        projects_step(*old(app), *final(app), key, act, authenticated),
{
    if app.search_active {
        handle_search(app, key);
        return Action::Nothing;
    }
    match key {
        Key::Char('q') => {
            app.should_quit = true;
        },
        Key::Char('j') | Key::Down => {
            if app.focus == Focus::Left {
                move_project_cursor(app, true);
            }
        },
        Key::Char('k') | Key::Up => {
            if app.focus == Focus::Left {
                move_project_cursor(app, false);
            }
        },
        Key::Enter => {
            return open_selected_project(app);
        },
        Key::Char('r') => {
            return load_projects(app, authenticated);
        },
        Key::Left | Key::Char('h') => {
            app.focus = Focus::Left;
        },
        Key::Right | Key::Char('l') => {
            app.focus = Focus::Right;
        },
        Key::Tab => {
            app.focus = if app.focus == Focus::Left {
                Focus::Right
            } else {
                Focus::Left
            };
        },
        Key::Char('/') => {
            open_search(app);
        },
        _ => {},
    }
    Action::Nothing
}

fn open_selected_version(app: &mut App) -> (act: Action)
    ensures
        open_version_step(*old(app), *final(app), act),
{
    let (version, href) = match app.versions.selected_item() {
        Some(v) => match v.href() {
            Some(h) => (v.clone(), String::from_str(h)),
            None => {
                return Action::Nothing;
            },
        },
        None => {
            return Action::Nothing;
        },
    };
    app.selected_version = Some(version);
    app.loading = true;
    app.screen = Screen::Components;
    app.version_tab = VersionTab::Components;
    app.components = StatefulList::default();
    app.vulnerabilities = StatefulList::default();
    app.policy_violations = StatefulList::default();
    Action::FetchComponents { href, page_size: app.config.tui.page_size }
}

fn handle_versions(app: &mut App, key: Key) -> (act: Action)
    ensures
        versions_step(*old(app), *final(app), key, act),
{
    if app.search_active {
        handle_search(app, key);
        return Action::Nothing;
    }
    match key {
        Key::Char('q') => {
            app.should_quit = true;
        },
        Key::Char('j') | Key::Down => {
            if app.focus == Focus::Left {
                move_version_cursor(app, true);
            }
        },
        Key::Char('k') | Key::Up => {
            if app.focus == Focus::Left {
                move_version_cursor(app, false);
            }
        },
        Key::Enter => {
            return open_selected_version(app);
        },
        Key::Backspace | Key::Esc => {
            app.go_back();
        },
        Key::Left | Key::Char('h') => {
            app.focus = Focus::Left;
        },
        Key::Right | Key::Char('l') => {
            app.focus = Focus::Right;
        },
        Key::Tab => {
            app.focus = if app.focus == Focus::Left {
                Focus::Right
            } else {
                Focus::Left
            };
        },
        Key::Char('/') => {
            open_search(app);
        },
        _ => {},
    }
    Action::Nothing
}

fn move_detail_cursor(app: &mut App, down: bool)
    ensures
        *final(app) == detail_cursor_moved(*old(app), down),
{
    match app.version_tab {
        VersionTab::Components => {
            let rows = app.filtered_components();
            let vis = positions(&rows);
            proof {
                lemma_row_positions(rows@, app.components.items@, app.visible_components());
            }
            let sel = if down {
                move_down(&vis, app.components.selected)
            } else {
                move_up(&vis, app.components.selected)
            };
            app.components.selected = sel;
        },
        VersionTab::Vulnerabilities => {
            let rows = app.filtered_vulnerabilities();
            let vis = positions(&rows);
            proof {
                lemma_row_positions(
                    rows@,
                    app.vulnerabilities.items@,
                    app.visible_vulnerabilities(),
                );
            }
            let sel = if down {
                move_down(&vis, app.vulnerabilities.selected)
            } else {
                move_up(&vis, app.vulnerabilities.selected)
            };
            app.vulnerabilities.selected = sel;
        },
        VersionTab::PolicyViolations => {
            let rows = app.filtered_policy_violations();
            let vis = positions(&rows);
            proof {
                lemma_row_positions(
                    rows@,
                    app.policy_violations.items@,
                    app.visible_policy_violations(),
                );
            }
            let sel = if down {
                move_down(&vis, app.policy_violations.selected)
            } else {
                move_up(&vis, app.policy_violations.selected)
            };
            app.policy_violations.selected = sel;
        },
    }
}

fn selected_version_href_exec(app: &App) -> (r: Option<String>)
    ensures
        match r {
            Some(h) => selected_version_href(*app) == Some(h@),
            None => selected_version_href(*app) is None,
        },
{
    match &app.selected_version {
        Some(v) => match v.href() {
            Some(h) => Some(String::from_str(h)),
            None => None,
        },
        None => None,
    }
}

/// Shows tab `new_tab` and requests its list when it has not been loaded.
pub fn switch_version_tab(app: &mut App, new_tab: VersionTab) -> (act: Action)
    ensures
        switch_tab_step(*old(app), *final(app), act, new_tab),
{
    app.version_tab = new_tab;
    app.search_input = String::new();
    app.screen = match new_tab {
        VersionTab::Components => Screen::Components,
        VersionTab::Vulnerabilities => Screen::Vulnerabilities,
        VersionTab::PolicyViolations => Screen::PolicyViolations,
    };
    let href = match selected_version_href_exec(app) {
        Some(h) => h,
        None => {
            return Action::Nothing;
        },
    };
    let page_size = app.config.tui.page_size;
    match new_tab {
        VersionTab::Components => {
            if app.components.is_empty() {
                app.loading = true;
                return Action::FetchComponents { href, page_size };
            }
        },
        VersionTab::Vulnerabilities => {
            if app.vulnerabilities.is_empty() {
                app.loading = true;
                return Action::FetchVulnerabilities { href, page_size };
            }
        },
        VersionTab::PolicyViolations => {
            if app.policy_violations.is_empty() {
                app.loading = true;
                return Action::FetchPolicyViolations { href, page_size };
            }
        },
    }
    Action::Nothing
}

fn option_count(app: &App, f: FilterField) -> (n: usize)
    ensures
        n == option_values(*app, f).len(),
{
    match f {
        FilterField::PolicyRuleName => app.available_policy_rules.len(),
        _ => f.options().len(),
    }
}

fn toggle_focused_option(app: &mut App)
    requires
        old(app).filter_popup.focused_option < option_values(
            *old(app),
            field_at(old(app).filter_popup.focused_field as int),
        ).len(),
    ensures
        filter_toggled(
            old(app).filter,
            final(app).filter,
            field_at(old(app).filter_popup.focused_field as int),
            option_values(*old(app), field_at(old(app).filter_popup.focused_field as int))[old(
                app,
            ).filter_popup.focused_option as int],
        ),
        *final(app) == clamped_selection(App { filter: final(app).filter, ..*old(app) }),
{
    let f = app.filter_popup.current_field();
    let o = app.filter_popup.focused_option;
    let ghost values = option_values(*app, f);
    match f {
        FilterField::PolicyRuleName => {
            let id = app.available_policy_rules[o].1.as_str();
            assert(id@ == values[o as int]);
            ComponentFilter::toggle(&mut app.filter.rule_ids, id);
        },
        FilterField::PolicyStatus => {
            let v = f.options()[o];
            assert(v@ == values[o as int]) by {
                if o == 0 {} else if o == 1 {} else {}
            }
            ComponentFilter::toggle(&mut app.filter.policy_statuses, v);
        },
        FilterField::ReviewStatus => {
            let v = f.options()[o];
            assert(v@ == values[o as int]) by {
                if o == 0 {} else if o == 1 {} else if o == 2 {} else {}
            }
            ComponentFilter::toggle(&mut app.filter.review_statuses, v);
        },
        FilterField::ApprovalStatus => {
            let v = f.options()[o];
            assert(v@ == values[o as int]) by {
                if o == 0 {} else if o == 1 {} else {}
            }
            ComponentFilter::toggle(&mut app.filter.approval_statuses, v);
        },
    }
    app.clamp_selection_to_filter();
}

fn handle_filter_popup(app: &mut App, key: Key)
    requires
        key == Key::Tab ==> old(app).filter_popup.focused_field < usize::MAX,
        key == Key::BackTab ==> old(app).filter_popup.focused_field + 4 <= usize::MAX,
        is_down(key) && option_values(*old(app), field_at(old(app).filter_popup.focused_field as int)).len() > 0
            ==> old(app).filter_popup.focused_option < usize::MAX,
        is_up(key) ==> old(app).filter_popup.focused_option + option_values(
            *old(app),
            field_at(old(app).filter_popup.focused_field as int),
        ).len() <= usize::MAX,
    ensures
        popup_step(*old(app), *final(app), key),
{
    let f = app.filter_popup.current_field();
    let n = option_count(app, f);
    match key {
        Key::Esc | Key::Enter | Key::Char('f') => {
            app.filter_popup.open = false;
        },
        Key::Tab => {
            app.filter_popup.move_field_down();
        },
        Key::BackTab => {
            app.filter_popup.move_field_up();
        },
        Key::Char('j') | Key::Down => {
            app.filter_popup.move_option_down(n);
        },
        Key::Char('k') | Key::Up => {
            app.filter_popup.move_option_up(n);
        },
        Key::Char(' ') => {
            if app.filter_popup.focused_option < n {
                toggle_focused_option(app);
            }
        },
        _ => {},
    }
}

fn change_page(app: &mut App, next: bool) -> (act: Action)
    ensures
        page_step(*old(app), *final(app), act, next),
{
    let href = match selected_version_href_exec(app) {
        Some(h) => h,
        None => {
            return Action::Nothing;
        },
    };
    let tab = app.version_tab;
    let (offset, total) = match tab {
        VersionTab::Components => (app.components_offset, app.components_total),
        VersionTab::Vulnerabilities => (app.vulnerabilities_offset, app.vulnerabilities_total),
        VersionTab::PolicyViolations => (
            app.policy_violations_offset,
            app.policy_violations_total,
        ),
    };
    let ps = app.config.tui.page_size;
    let target: u32 = if next {
        if offset <= u32::MAX - ps && ((offset + ps) as u64) < total {
            offset + ps
        } else {
            return Action::Nothing;
        }
    } else if offset > 0 {
        if offset >= ps {
            offset - ps
        } else {
            0
        }
    } else {
        return Action::Nothing;
    };
    app.loading = true;
    Action::FetchPage { tab, href, offset: target, page_size: ps }
}

fn handle_version_detail(app: &mut App, key: Key) -> (act: Action)
    requires
        old(app).screen != Screen::Login && old(app).screen != Screen::Projects && old(app).screen
            != Screen::Versions,
        key_within_limits(*old(app), key, false),
    ensures
        detail_step(*old(app), *final(app), key, act),
{
    if app.search_active {
        handle_search(app, key);
        return Action::Nothing;
    }
    if app.filter_popup.open {
        handle_filter_popup(app, key);
        return Action::Nothing;
    }
    match key {
        Key::Char('q') => {
            app.should_quit = true;
        },
        Key::Char('f') => {
            app.filter_popup.open = true;
        },
        Key::Char('n') => {
            return change_page(app, true);
        },
        Key::Char('p') => {
            return change_page(app, false);
        },
        Key::Char('j') | Key::Down => {
            if app.focus == Focus::Left {
                move_detail_cursor(app, true);
            }
        },
        Key::Char('k') | Key::Up => {
            if app.focus == Focus::Left {
                move_detail_cursor(app, false);
            }
        },
        Key::Tab => {
            if app.focus == Focus::Left {
                let new_tab = app.version_tab.next();
                return switch_version_tab(app, new_tab);
            } else {
                app.focus = Focus::Left;
            }
        },
        Key::BackTab => {
            if app.focus == Focus::Left {
                let new_tab = app.version_tab.prev();
                return switch_version_tab(app, new_tab);
            }
        },
        Key::Char('1') => {
            return switch_version_tab(app, VersionTab::Components);
        },
        Key::Char('2') => {
            return switch_version_tab(app, VersionTab::Vulnerabilities);
        },
        Key::Char('3') => {
            return switch_version_tab(app, VersionTab::PolicyViolations);
        },
        Key::Left | Key::Char('h') => {
            app.focus = Focus::Left;
        },
        Key::Right | Key::Char('l') => {
            app.focus = Focus::Right;
        },
        Key::Backspace | Key::Esc => {
            app.go_back();
        },
        Key::Char('/') => {
            open_search(app);
        },
        _ => {},
    }
    Action::Nothing
}

/// Whether a key press can be handled without arithmetic overflow (the
/// cursor indices it would step are below their limits).
pub fn within_limits(app: &App, key: Key, ctrl: bool) -> (r: bool)
    ensures
        r == key_within_limits(*app, key, ctrl),
{
    let quits = ctrl && key == Key::Char('c');
    let p = &app.filter_popup;
    let detail = match app.screen {
        Screen::Login | Screen::Projects | Screen::Versions => false,
        _ => true,
    };
    let in_popup = detail && !app.search_active && p.open && !quits;
    let n = option_count(app, p.current_field());
    let down = key == Key::Char('j') || key == Key::Down;
    let up = key == Key::Char('k') || key == Key::Up;
    if app.screen == Screen::Login && !app.search_active && key == Key::Tab && !quits
        && app.login_active_field == usize::MAX {
        return false;
    }
    if in_popup && key == Key::Tab && p.focused_field == usize::MAX {
        return false;
    }
    if in_popup && key == Key::BackTab && p.focused_field > usize::MAX - 4 {
        return false;
    }
    if in_popup && down && n > 0 && p.focused_option == usize::MAX {
        return false;
    }
    if in_popup && up && n > 0 && p.focused_option > usize::MAX - n {
        return false;
    }
    true
}

/// Handles one key press. `ctrl` tells whether Control was held, and
/// `authenticated` whether the client holds a bearer token.
pub fn handle_key(app: &mut App, key: Key, ctrl: bool, authenticated: bool) -> (act: Action)
    requires
        key_within_limits(*old(app), key, ctrl),
    ensures
        key_step(*old(app), *final(app), key, ctrl, authenticated, act),
{
    if ctrl && key == Key::Char('c') {
        app.should_quit = true;
        return Action::Nothing;
    }
    match app.screen {
        Screen::Login => handle_login(app, key),
        Screen::Projects => handle_projects(app, key, authenticated),
        Screen::Versions => handle_versions(app, key),
        Screen::Components | Screen::Vulnerabilities | Screen::PolicyViolations => {
            handle_version_detail(app, key)
        },
    }
}


// ---------------------------------------------------------------------------
// Results of background work
// ---------------------------------------------------------------------------
/// The status shown after `count` items of a list arrived, e.g.
/// `"Loaded 3 projects"`.
pub open spec fn loaded_text(count: nat, what: Seq<char>) -> Seq<char> {
    "Loaded "@ + decimal(count) + " "@ + what
}

/// The status shown after a page of a version's list arrived, e.g.
/// `"Loaded 3 components (page offset 0, total 10)"`.
pub open spec fn loaded_page_text(count: nat, what: Seq<char>, offset: u32, total: u64) -> Seq<
    char,
> {
    loaded_text(count, what) + " (page offset "@ + decimal(offset as nat) + ", total "@ + decimal(
        total as nat,
    ) + ")"@
}

/// The status message is present and reads `text`.
pub open spec fn status_reads(app: App, text: Seq<char>) -> bool {
    app.status_message matches Some(m) && m@ == text
}

/// A finished background task or authentication arrives.
pub open spec fn event_step(old: App, new: App, event: AppEvent, act: Action) -> bool {
    match event {
        AppEvent::AuthSuccess => new == old && (act matches Action::Reauthenticate {
            url,
            token,
            accept_invalid_certs,
        } && url@ == old.config.server.url@ && token@ == or_empty(old.config.server.api_token)
            && accept_invalid_certs == old.config.server.accept_invalid_certs),
        AppEvent::ProjectsLoaded { items, total, offset } => {
            &&& new == (App {
                loading: false,
                projects: StatefulList { items, selected: 0 },
                projects_total: total,
                projects_offset: offset,
                status_message: new.status_message,
                error_message: None,
                ..old
            })
            &&& status_reads(new, loaded_text(items@.len(), "projects"@))
            &&& act == Action::Nothing
        },
        AppEvent::VersionsLoaded { items, total, offset } => {
            &&& new == (App {
                loading: false,
                versions: StatefulList { items, selected: 0 },
                versions_total: total,
                versions_offset: offset,
                status_message: new.status_message,
                error_message: None,
                ..old
            })
            &&& status_reads(new, loaded_text(items@.len(), "versions"@))
            &&& act == Action::Nothing
        },
        AppEvent::ComponentsLoaded { items, total, offset } => {
            &&& new == (App {
                loading: false,
                components: StatefulList { items, selected: 0 },
                components_total: total,
                components_offset: offset,
                status_message: new.status_message,
                error_message: None,
                ..old
            })
            &&& status_reads(new, loaded_page_text(items@.len(), "components"@, offset, total))
            &&& act == Action::Nothing
        },
        AppEvent::VulnerabilitiesLoaded { items, total, offset } => {
            &&& new == (App {
                loading: false,
                vulnerabilities: StatefulList { items, selected: 0 },
                vulnerabilities_total: total,
                vulnerabilities_offset: offset,
                status_message: new.status_message,
                error_message: None,
                ..old
            })
            &&& status_reads(
                new,
                loaded_page_text(items@.len(), "vulnerabilities"@, offset, total),
            )
            &&& act == Action::Nothing
        },
        AppEvent::PolicyViolationsLoaded { items, total, offset } => {
            &&& new == (App {
                loading: false,
                policy_violations: StatefulList { items, selected: 0 },
                policy_violations_total: total,
                policy_violations_offset: offset,
                status_message: new.status_message,
                error_message: None,
                ..old
            })
            &&& status_reads(
                new,
                loaded_page_text(items@.len(), "policy violations"@, offset, total),
            )
            &&& act == Action::Nothing
        },
        AppEvent::PolicyRulesLoaded(rules) => {
            &&& new == (App { available_policy_rules: new.available_policy_rules, ..old })
            &&& organized(rules@, new.available_policy_rules@)
            &&& act == Action::Nothing
        },
        AppEvent::Error(msg) => {
            &&& new == (App {
                error_message: Some(msg),
                status_message: None,
                loading: false,
                screen: if old.screen == Screen::Projects {
                    Screen::Login
                } else {
                    old.screen
                },
                login_error: if old.screen == Screen::Projects || old.screen == Screen::Login {
                    Some(msg)
                } else {
                    old.login_error
                },
                ..old
            })
            &&& act == Action::Nothing
        },
    }
}

fn loaded_status(count: usize, what: &str) -> (r: String)
    ensures
        r@ == loaded_text(count as nat, what@),
{
    let n = decimal_string(count as u64);
    let a = concat("Loaded ", n.as_str());
    let b = concat(a.as_str(), " ");
    concat(b.as_str(), what)
}

fn loaded_page_status(count: usize, what: &str, offset: u32, total: u64) -> (r: String)
    ensures
        r@ == loaded_page_text(count as nat, what@, offset, total),
{
    let head = loaded_status(count, what);
    let o = decimal_string(offset as u64);
    let t = decimal_string(total);
    let a = concat(head.as_str(), " (page offset ");
    let b = concat(a.as_str(), o.as_str());
    let c = concat(b.as_str(), ", total ");
    let d = concat(c.as_str(), t.as_str());
    concat(d.as_str(), ")")
}

/// Applies a finished background task or authentication to the state.
pub fn handle_app_event(app: &mut App, event: AppEvent) -> (act: Action)
    ensures
        event_step(*old(app), *final(app), event, act),
{
    match event {
        AppEvent::AuthSuccess => {
            let token = match &app.config.server.api_token {
                Some(t) => t.clone(),
                None => String::new(),
            };
            Action::Reauthenticate {
                url: app.config.server.url.clone(),
                token,
                accept_invalid_certs: app.config.server.accept_invalid_certs,
            }
        },
        AppEvent::ProjectsLoaded { items, total, offset } => {
            app.loading = false;
            let msg = loaded_status(items.len(), "projects");
            app.projects = StatefulList::new(items);
            app.projects_total = total;
            app.projects_offset = offset;
            app.set_status(msg);
            Action::Nothing
        },
        AppEvent::VersionsLoaded { items, total, offset } => {
            app.loading = false;
            let msg = loaded_status(items.len(), "versions");
            app.versions = StatefulList::new(items);
            app.versions_total = total;
            app.versions_offset = offset;
            app.set_status(msg);
            Action::Nothing
        },
        AppEvent::ComponentsLoaded { items, total, offset } => {
            app.loading = false;
            let msg = loaded_page_status(items.len(), "components", offset, total);
            app.components = StatefulList::new(items);
            app.components_total = total;
            app.components_offset = offset;
            app.set_status(msg);
            Action::Nothing
        },
        AppEvent::VulnerabilitiesLoaded { items, total, offset } => {
            app.loading = false;
            let msg = loaded_page_status(items.len(), "vulnerabilities", offset, total);
            app.vulnerabilities = StatefulList::new(items);
            app.vulnerabilities_total = total;
            app.vulnerabilities_offset = offset;
            app.set_status(msg);
            Action::Nothing
        },
        AppEvent::PolicyViolationsLoaded { items, total, offset } => {
            app.loading = false;
            let msg = loaded_page_status(items.len(), "policy violations", offset, total);
            app.policy_violations = StatefulList::new(items);
            app.policy_violations_total = total;
            app.policy_violations_offset = offset;
            app.set_status(msg);
            Action::Nothing
        },
        AppEvent::PolicyRulesLoaded(rules) => {
            app.available_policy_rules = organize_policy_rules(rules);
            Action::Nothing
        },
        AppEvent::Error(msg) => {
            app.set_error(msg.clone());
            if app.screen == Screen::Projects && !app.loading {
                app.screen = Screen::Login;
                app.login_error = Some(msg);
            } else if app.screen == Screen::Login {
                app.login_error = Some(msg);
            }
            app.loading = false;
            Action::Nothing
        },
    }
}

impl App {
    /// At start-up, authenticates right away when the configuration holds
    /// credentials (the application then opens on the project list).
    pub fn begin_session(&mut self) -> (act: Action)
        ensures
            old(self).screen != Screen::Projects ==> *final(self) == *old(self) && act
                == Action::Nothing,
            old(self).screen == Screen::Projects ==> *final(self) == (App {
                loading: true,
                status_message: final(self).status_message,
                error_message: None,
                ..*old(self)
            }) && status_reads(*final(self), "Authenticating..."@) && (
            act matches Action::Authenticate { token } && token@ == or_empty(
                old(self).config.server.api_token,
            )),
    {
        if self.screen != Screen::Projects {
            return Action::Nothing;
        }
        let token = match &self.config.server.api_token {
            Some(t) => t.clone(),
            None => String::new(),
        };
        self.loading = true;
        self.set_status(String::from_str("Authenticating..."));
        Action::Authenticate { token }
    }

    /// A client for the login URL could not be built.
    pub fn connect_failed(&mut self, reason: &str)
        ensures
            *final(self) == (App { login_error: final(self).login_error, loading: false, ..*old(self) }),
            final(self).login_error matches Some(e) && e@ == "Failed to create client: "@ + reason@,
    {
        self.login_error = Some(concat("Failed to create client: ", reason));
        self.loading = false;
    }

    /// Keeps the credentials entered on the login form in the configuration.
    pub fn remember_credentials(&mut self, url: String, token: String)
        ensures
            *final(self) == (App {
                config: Config {
                    server: ServerConfig { url, api_token: Some(token), ..old(self).config.server },
                    ..old(self).config
                },
                ..*old(self)
            }),
    {
        self.config.server.url = url;
        self.config.server.api_token = Some(token);
    }

    /// Re-building the client after a successful authentication failed.
    pub fn client_rebuild_failed(&mut self, reason: &str)
        ensures
            *final(self) == (App {
                error_message: final(self).error_message,
                status_message: None,
                loading: false,
                ..*old(self)
            }),
            final(self).error_message matches Some(e) && e@ == "Client rebuild failed: "@
                + reason@,
    {
        self.set_error(concat("Client rebuild failed: ", reason));
    }

    /// Re-authenticating the rebuilt client failed.
    pub fn reauth_failed(&mut self, reason: &str)
        ensures
            *final(self) == (App {
                error_message: final(self).error_message,
                status_message: None,
                loading: false,
                ..*old(self)
            }),
            final(self).error_message matches Some(e) && e@ == "Re-auth failed: "@ + reason@,
    {
        self.set_error(concat("Re-auth failed: ", reason));
    }

    /// Authentication completed: show the project list and start loading it
    /// (when the client now holds a token).
    pub fn auth_succeeded(&mut self, authenticated: bool) -> (act: Action)
        ensures
            authenticated ==> *final(self) == (App {
                loading: true,
                screen: Screen::Projects,
                login_error: None,
                status_message: final(self).status_message,
                error_message: None,
                projects: final(self).projects,
                ..*old(self)
            }) && final(self).projects.is_cleared() && status_reads(
                *final(self),
                "Loading projects..."@,
            ) && act == (Action::FetchProjects { page_size: old(self).config.tui.page_size }),
            !authenticated ==> *final(self) == (App {
                loading: false,
                screen: Screen::Projects,
                login_error: None,
                status_message: final(self).status_message,
                error_message: None,
                ..*old(self)
            }) && status_reads(*final(self), "Authenticated successfully"@) && act
                == Action::Nothing,
    {
        self.loading = false;
        self.screen = Screen::Projects;
        self.login_error = None;
        self.set_status(String::from_str("Authenticated successfully"));
        load_projects(self, authenticated)
    }
}


// ---------------------------------------------------------------------------
// Laws across steps
// ---------------------------------------------------------------------------
/// In the search input, typing a character and then pressing Backspace
/// restores the search text and leaves the search open.
pub proof fn law_search_type_then_erase(a: App, b: App, c: App, ch: char)
    requires
        search_step(a, b, Key::Char(ch)),
        search_step(b, c, Key::Backspace),
    ensures
        c.search_input@ == a.search_input@,
        c.search_active == a.search_active,
        c == (App { search_input: c.search_input, ..a }),
{
    assert(b.search_input@.len() > 0);
    assert(b.search_input@.drop_last() =~= a.search_input@);
}

/// Opening a project from the project list and then going back returns to
/// the project list with the same projects and cursor, no selected
/// project, and an emptied version list.
pub proof fn law_open_project_then_back(
    a: App,
    b: App,
    c: App,
    act1: Action,
    act2: Action,
    authenticated: bool,
    ctrl: bool,
)
    requires
        a.screen == Screen::Projects,
        !a.search_active,
        key_step(a, b, Key::Enter, ctrl, authenticated, act1),
        act1 != Action::Nothing,
        key_step(b, c, Key::Esc, ctrl, authenticated, act2),
    ensures
        c.screen == Screen::Projects,
        c.selected_project is None,
        c.versions.is_cleared(),
        c.projects == a.projects,
        c.focus == Focus::Left,
        c.filter == a.filter,
        act2 == Action::Nothing,
{
}

/// Switching tabs forward and then back returns to the starting tab and
/// screen.
pub proof fn law_tab_switch_round_trip(a: App, b: App, c: App, act1: Action, act2: Action)
    requires
        switch_tab_step(a, b, act1, tab_after(a.version_tab)),
        switch_tab_step(b, c, act2, tab_before(b.version_tab)),
    ensures
        c.version_tab == a.version_tab,
        c.screen == screen_of(a.version_tab),
{
    crate::app::lemma_tab_cycle_inverse(a.version_tab);
}

/// Control-C quits from every screen and in every mode, and changes
/// nothing else.
pub proof fn law_ctrl_c_quits(a: App, b: App, authenticated: bool, act: Action)
    requires
        key_step(a, b, Key::Char('c'), true, authenticated, act),
    ensures
        b.should_quit,
        b == (App { should_quit: true, ..a }),
        act == Action::Nothing,
{
}

/// An error reported while on the project list returns to the login form
/// with the message shown there; loading always stops.
pub proof fn law_error_on_projects_returns_to_login(a: App, b: App, msg: String, act: Action)
    requires
        a.screen == Screen::Projects,
        event_step(a, b, AppEvent::Error(msg), act),
    ensures
        b.screen == Screen::Login,
        b.login_error == Some(msg),
        b.error_message == Some(msg),
        !b.loading,
{
}


/// On the project list, moving the cursor down and then up returns it to
/// the project it was on, when that project is listed and not the last
/// listed one.
pub proof fn law_project_cursor_down_up(a: App, b: App, c: App, act1: Action, act2: Action, auth: bool)
    requires
        a.screen == Screen::Projects,
        !a.search_active,
        a.focus == Focus::Left,
        a.visible_projects().contains(a.projects.selected as int),
        crate::selection::row_of(a.visible_projects(), a.projects.selected as int) + 1
            < a.visible_projects().len(),
        key_step(a, b, Key::Down, false, auth, act1),
        key_step(b, c, Key::Up, false, auth, act2),
    ensures
        c == a,
{
    let vis = a.visible_projects();
    let keep = |p: crate::api::types::Project| crate::app::project_shown(a.query(), p);
    crate::selection::lemma_kept_indices(a.projects.items@, keep);
    crate::selection::lemma_row_of(vis, a.projects.selected as int);
    crate::selection::lemma_step_down_up(vis, a.projects.selected as int);
    let p = crate::selection::row_of(vis, a.projects.selected as int);
    assert(0 <= vis[p + 1] < a.projects.items@.len());
    assert(a.projects.items.len() == a.projects.items@.len());
    assert(b.visible_projects() == vis);
    assert(c.projects == a.projects);
}


/// Enter on the login form with an empty (after trimming) server URL, or
/// with a URL but an empty token, shows which one is required and changes
/// nothing else: no request is made and the configuration is untouched.
pub proof fn law_login_enter_requires_fields(
    a: App,
    b: App,
    act: Action,
    authenticated: bool,
)
    requires
        a.screen == Screen::Login,
        !a.search_active,
        key_step(a, b, Key::Enter, false, authenticated, act),
        trim_spec(a.login_url_input@).len() == 0 || trim_spec(a.login_token_input@).len() == 0,
    ensures
        b == (App { login_error: b.login_error, ..a }),
        trim_spec(a.login_url_input@).len() == 0 ==> (b.login_error matches Some(e) && e@
            == "Server URL is required"@),
        trim_spec(a.login_url_input@).len() > 0 ==> (b.login_error matches Some(e) && e@
            == "API Token is required"@),
        act == Action::Nothing,
{
}

/// Enter on the version list (search closed) opens the selected version
/// when it has an href: it becomes the selected version, the components
/// tab is shown with all three lists emptied, loading starts and the first
/// page of components is requested with the configured page size.
/// Otherwise nothing changes and nothing is requested.
pub proof fn law_version_enter_opens(a: App, b: App, act: Action, authenticated: bool)
    requires
        a.screen == Screen::Versions,
        !a.search_active,
        key_step(a, b, Key::Enter, false, authenticated, act),
    ensures
        (a.versions.selected < a.versions.items@.len() && a.versions.items@[a.versions.selected as int].meta is Some) ==> {
            let v = a.versions.items@[a.versions.selected as int];
            &&& (b.selected_version matches Some(s) && s.same_as(v))
            &&& b.loading
            &&& b.screen == Screen::Components
            &&& b.version_tab == VersionTab::Components
            &&& b.components.is_cleared()
            &&& b.vulnerabilities.is_cleared()
            &&& b.policy_violations.is_cleared()
            &&& (act matches Action::FetchComponents { href, page_size } && Some(href@)
                == v.href_spec() && page_size == a.config.tui.page_size)
        },
        !(a.versions.selected < a.versions.items@.len() && a.versions.items@[a.versions.selected as int].meta is Some) ==> b
            == a && act == Action::Nothing,
{
}

/// `f` on a version's tab (search and popup closed) opens the filter popup;
/// Esc closes it again, restoring the state.
pub proof fn law_filter_popup_open_close(a: App, b: App, c: App, act1: Action, act2: Action, auth: bool)
    requires
        a.screen == Screen::Components || a.screen == Screen::Vulnerabilities || a.screen
            == Screen::PolicyViolations,
        !a.search_active,
        !a.filter_popup.open,
        key_step(a, b, Key::Char('f'), false, auth, act1),
        key_step(b, c, Key::Esc, false, auth, act2),
    ensures
        b.filter_popup.open,
        b == with_popup(a, FilterPopup { open: true, ..a.filter_popup }),
        c == a,
        act1 == Action::Nothing && act2 == Action::Nothing,
{
}

proof fn lemma_popup_space(a: App, b: App)
    requires
        popup_step(a, b, Key::Char(' ')),
        a.filter_popup.focused_option < option_values(
            a,
            field_at(a.filter_popup.focused_field as int),
        ).len(),
    ensures
        b.filter_popup == a.filter_popup,
        b.available_policy_rules == a.available_policy_rules,
        b.screen == a.screen,
        b.search_active == a.search_active,
        crate::panels::criterion(b.filter, field_at(a.filter_popup.focused_field as int))
            == crate::app::toggled(
            crate::panels::criterion(a.filter, field_at(a.filter_popup.focused_field as int)),
            option_values(
                a,
                field_at(a.filter_popup.focused_field as int),
            )[a.filter_popup.focused_option as int],
        ),
{
}

/// In the filter popup, pressing Space twice on an option whose value the
/// criterion does not hold restores the criterion's values.
pub proof fn law_popup_toggle_twice_restores(
    a: App,
    b: App,
    c: App,
    auth: bool,
    act1: Action,
    act2: Action,
)
    requires
        a.screen == Screen::Components || a.screen == Screen::Vulnerabilities || a.screen
            == Screen::PolicyViolations,
        !a.search_active,
        a.filter_popup.open,
        a.filter_popup.focused_option < option_values(
            a,
            field_at(a.filter_popup.focused_field as int),
        ).len(),
        !crate::panels::criterion(a.filter, field_at(a.filter_popup.focused_field as int)).contains(
            option_values(
                a,
                field_at(a.filter_popup.focused_field as int),
            )[a.filter_popup.focused_option as int],
        ),
        key_step(a, b, Key::Char(' '), false, auth, act1),
        key_step(b, c, Key::Char(' '), false, auth, act2),
    ensures
        crate::panels::criterion(c.filter, field_at(a.filter_popup.focused_field as int))
            == crate::panels::criterion(a.filter, field_at(a.filter_popup.focused_field as int)),
        c.filter_popup == a.filter_popup,
{
    let f = field_at(a.filter_popup.focused_field as int);
    let v = option_values(a, f)[a.filter_popup.focused_option as int];
    assert(detail_step(a, b, Key::Char(' '), act1));
    assert(popup_step(a, b, Key::Char(' ')));
    lemma_popup_space(a, b);
    assert(option_values(b, f) == option_values(a, f));
    assert(detail_step(b, c, Key::Char(' '), act2));
    assert(popup_step(b, c, Key::Char(' ')));
    lemma_popup_space(b, c);
    crate::app::lemma_toggle_twice_restores(crate::panels::criterion(a.filter, f), v);
}

/// Paging asks only for pages inside the list: the next page starts below
/// the reported total and after the current page, the previous page
/// starts before the current one.
pub proof fn law_page_requests_stay_in_list(a: App, b: App, act: Action, next: bool)
    requires
        page_step(a, b, act, next),
        a.config.tui.page_size > 0,
    ensures
        act matches Action::FetchPage { offset, .. } ==> (if next {
            page_of(a, a.version_tab).0 <= offset < page_of(a, a.version_tab).1
        } else {
            offset < page_of(a, a.version_tab).0
        }),
{
}


/// Choosing a version tab with `1`, `2`, `3`, or (with the list focused)
/// Tab and BackTab, shows that tab with an empty search text, so the new
/// tab's list is not narrowed by the search typed on the previous tab.
#[verifier::rlimit(40)]
pub proof fn law_tab_keys_clear_search(a: App, b: App, key: Key, auth: bool, act: Action)
    requires
        a.screen == Screen::Components || a.screen == Screen::Vulnerabilities || a.screen
            == Screen::PolicyViolations,
        !a.search_active,
        !a.filter_popup.open,
        key == Key::Char('1') || key == Key::Char('2') || key == Key::Char('3') || ((key
            == Key::Tab || key == Key::BackTab) && a.focus == Focus::Left),
        key_step(a, b, key, false, auth, act),
    ensures
        b.search_input@.len() == 0,
        b.version_tab == (if key == Key::Char('1') {
            VersionTab::Components
        } else if key == Key::Char('2') {
            VersionTab::Vulnerabilities
        } else if key == Key::Char('3') {
            VersionTab::PolicyViolations
        } else if key == Key::Tab {
            tab_after(a.version_tab)
        } else {
            tab_before(a.version_tab)
        }),
        b.screen == screen_of(b.version_tab),
        b.components == a.components && b.vulnerabilities == a.vulnerabilities
            && b.policy_violations == a.policy_violations,
{
}

/// `n` on a version's tab asks for the next page exactly when an entry
/// lies beyond the current page (its offset plus the page size is below
/// the reported total, and fits an offset): that page starts at the
/// current offset plus the page size and holds at most a page of entries.
/// Otherwise nothing changes.
#[verifier::rlimit(40)]
pub proof fn law_next_page(a: App, b: App, auth: bool, act: Action)
    requires
        a.screen == Screen::Components || a.screen == Screen::Vulnerabilities || a.screen
            == Screen::PolicyViolations,
        !a.search_active,
        !a.filter_popup.open,
        a.selected_version matches Some(v) && v.meta is Some,
        key_step(a, b, Key::Char('n'), false, auth, act),
    ensures
        ({
            let (o, t) = match a.version_tab {
                VersionTab::Components => (a.components_offset, a.components_total),
                VersionTab::Vulnerabilities => (a.vulnerabilities_offset, a.vulnerabilities_total),
                VersionTab::PolicyViolations => (
                    a.policy_violations_offset,
                    a.policy_violations_total,
                ),
            };
            let ps = a.config.tui.page_size;
            &&& (o + ps < t && o + ps <= u32::MAX) ==> (act matches Action::FetchPage {
                tab,
                offset,
                page_size,
                ..
            } && tab == a.version_tab && offset == o + ps && page_size == ps && b.loading)
            &&& !(o + ps < t && o + ps <= u32::MAX) ==> (b == a && act == Action::Nothing)
        }),
{
}

/// `p` on a version's tab, when the current page is not the first, asks
/// for the page one page size earlier (the first page when less than a
/// page lies before); on the first page nothing changes.
#[verifier::rlimit(40)]
pub proof fn law_previous_page(a: App, b: App, auth: bool, act: Action)
    requires
        a.screen == Screen::Components || a.screen == Screen::Vulnerabilities || a.screen
            == Screen::PolicyViolations,
        !a.search_active,
        !a.filter_popup.open,
        a.selected_version matches Some(v) && v.meta is Some,
        key_step(a, b, Key::Char('p'), false, auth, act),
    ensures
        ({
            let o = match a.version_tab {
                VersionTab::Components => a.components_offset,
                VersionTab::Vulnerabilities => a.vulnerabilities_offset,
                VersionTab::PolicyViolations => a.policy_violations_offset,
            };
            let ps = a.config.tui.page_size;
            &&& o > 0 ==> (act matches Action::FetchPage { tab, offset, page_size, .. } && tab
                == a.version_tab && offset == (if o >= ps { o - ps } else { 0 }) && page_size
                == ps && b.loading)
            &&& o == 0 ==> (b == a && act == Action::Nothing)
        }),
{
}


/// Switching to a version tab whose list is empty requests that list's
/// first page for the selected version (and starts loading); a tab whose
/// list is already loaded requests nothing.
#[verifier::rlimit(40)]
pub proof fn law_tab_switch_fetches_empty_list(a: App, b: App, key: Key, auth: bool, act: Action)
    requires
        a.screen == Screen::Components || a.screen == Screen::Vulnerabilities || a.screen
            == Screen::PolicyViolations,
        !a.search_active,
        !a.filter_popup.open,
        key == Key::Char('1') || key == Key::Char('2') || key == Key::Char('3'),
        a.selected_version matches Some(v) && v.meta is Some,
        key_step(a, b, key, false, auth, act),
    ensures
        key == Key::Char('1') && a.components.items@.len() == 0 ==> (act matches Action::FetchComponents {
            href,
            page_size,
        } && Some(href@) == a.selected_version->0.href_spec() && page_size
            == a.config.tui.page_size && b.loading),
        key == Key::Char('2') && a.vulnerabilities.items@.len() == 0 ==> (
        act matches Action::FetchVulnerabilities { href, page_size } && Some(href@)
            == a.selected_version->0.href_spec() && page_size == a.config.tui.page_size
            && b.loading),
        key == Key::Char('3') && a.policy_violations.items@.len() == 0 ==> (
        act matches Action::FetchPolicyViolations { href, page_size } && Some(href@)
            == a.selected_version->0.href_spec() && page_size == a.config.tui.page_size
            && b.loading),
        key == Key::Char('1') && a.components.items@.len() > 0 ==> act == Action::Nothing,
        key == Key::Char('2') && a.vulnerabilities.items@.len() > 0 ==> act == Action::Nothing,
        key == Key::Char('3') && a.policy_violations.items@.len() > 0 ==> act == Action::Nothing,
{
    assert(detail_step(a, b, key, act));
    if key == Key::Char('1') {
        assert(switch_tab_step(a, b, act, VersionTab::Components));
    } else if key == Key::Char('2') {
        assert(switch_tab_step(a, b, act, VersionTab::Vulnerabilities));
    } else {
        assert(switch_tab_step(a, b, act, VersionTab::PolicyViolations));
    }
}

/// Going back (Backspace or Esc) from a version's tabs returns to the
/// version list with no version selected, the three lists, their page
/// offsets and totals, the filter and the offered rules all cleared, and
/// the list focused; going back from the version list returns to the
/// project list with no project selected and the versions cleared.
#[verifier::rlimit(40)]
pub proof fn law_going_back(a: App, b: App, key: Key, auth: bool, act: Action)
    requires
        a.screen != Screen::Login && a.screen != Screen::Projects,
        !a.search_active,
        !a.filter_popup.open,
        key == Key::Esc || key == Key::Backspace,
        key_step(a, b, key, false, auth, act),
    ensures
        act == Action::Nothing,
        b.focus == Focus::Left,
        b.status_message is None && b.error_message is None,
        a.screen == Screen::Versions ==> b.screen == Screen::Projects && b.selected_project is None
            && b.versions.items@.len() == 0 && b.versions.selected == 0 && b.versions_offset == 0
            && b.versions_total == 0 && b.projects == a.projects,
        a.screen != Screen::Versions ==> b.screen == Screen::Versions && b.selected_version is None
            && b.components.items@.len() == 0 && b.vulnerabilities.items@.len() == 0
            && b.policy_violations.items@.len() == 0 && b.components_offset == 0
            && b.vulnerabilities_offset == 0 && b.policy_violations_offset == 0
            && b.components_total == 0 && b.vulnerabilities_total == 0
            && b.policy_violations_total == 0 && b.filter.policy_statuses@.len() == 0
            && b.filter.review_statuses@.len() == 0 && b.filter.approval_statuses@.len() == 0
            && b.filter.rule_ids@.len() == 0 && b.available_policy_rules@.len() == 0
            && !b.filter_popup.open && b.versions == a.versions,
{
}

/// In the filter popup, Space on an option flips whether the focused
/// field's criterion holds the option's value (when the criterion lists no
/// value twice), leaves the other criteria as they were, and leaves every
/// cursor on a visible row.
#[verifier::rlimit(40)]
pub proof fn law_popup_space_flips(a: App, b: App, auth: bool, act: Action)
    requires
        a.screen == Screen::Components || a.screen == Screen::Vulnerabilities || a.screen
            == Screen::PolicyViolations,
        !a.search_active,
        a.filter_popup.open,
        a.filter_popup.focused_option < option_values(
            a,
            field_at(a.filter_popup.focused_field as int),
        ).len(),
        ({
            let set = crate::panels::criterion(a.filter, field_at(a.filter_popup.focused_field as int));
            forall|i: int, j: int| 0 <= i < set.len() && 0 <= j < set.len() && set[i] == set[j] ==> i == j
        }),
        key_step(a, b, Key::Char(' '), false, auth, act),
    ensures
        ({
            let f = field_at(a.filter_popup.focused_field as int);
            let v = option_values(a, f)[a.filter_popup.focused_option as int];
            &&& crate::panels::criterion(b.filter, f).contains(v) <==> !crate::panels::criterion(
                a.filter,
                f,
            ).contains(v)
            &&& forall|g: FilterField| g != f ==> crate::panels::criterion(b.filter, g)
                == crate::panels::criterion(a.filter, g)
        }),
        b.visible_components().len() > 0 ==> b.visible_components().contains(
            b.components.selected as int,
        ),
        b.visible_policy_violations().len() > 0 ==> b.visible_policy_violations().contains(
            b.policy_violations.selected as int,
        ),
        act == Action::Nothing,
{
    let f = field_at(a.filter_popup.focused_field as int);
    let v = option_values(a, f)[a.filter_popup.focused_option as int];
    assert(detail_step(a, b, Key::Char(' '), act));
    assert(popup_step(a, b, Key::Char(' ')));
    lemma_popup_space(a, b);
    let set = crate::panels::criterion(a.filter, f);
    crate::app::lemma_toggle_flips_membership(set, v);
    let m = App { filter: b.filter, ..a };
    assert(b == clamped_selection(m));
    crate::selection::lemma_clamp(m.visible_components(), m.components.selected as int);
    crate::selection::lemma_clamp(m.visible_policy_violations(), m.policy_violations.selected as int);
    assert(b.components.items == m.components.items);
    assert(b.policy_violations.items == m.policy_violations.items);
    assert((|c: BomComponent| b.component_shown(c)) =~= (|c: BomComponent| m.component_shown(c)));
    assert((|c: BomComponent| b.violation_shown(c)) =~= (|c: BomComponent| m.violation_shown(c)));
    assert(b.visible_components() == m.visible_components());
    assert(b.visible_policy_violations() == m.visible_policy_violations());
    crate::selection::lemma_kept_indices(m.components.items@, |c: BomComponent| m.component_shown(c));
    crate::selection::lemma_kept_indices(
        m.policy_violations.items@,
        |c: BomComponent| m.violation_shown(c),
    );
    assert(m.components.items.len() == m.components.items@.len());
    assert(m.policy_violations.items.len() == m.policy_violations.items@.len());
    let vc = m.visible_components();
    let vp = m.visible_policy_violations();
    if vc.len() > 0 {
        assert(0 <= vc[0] < m.components.items@.len());
    }
    if vp.len() > 0 {
        assert(0 <= vp[0] < m.policy_violations.items@.len());
    }
}

} // verus!
