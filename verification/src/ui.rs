//! Text the screens show: breadcrumbs, status line, key hints, risk
//! summaries and severity classes. Drawing itself happens at the edge.
use vstd::prelude::*;
use vstd::string::*;
use crate::api::types::{RiskCount, RiskCountEntry};
use crate::app::{App, Screen, VersionTab};
use crate::text::{concat, decimal, decimal_string, join, join_spec, str_eq, string_from_chars};

verus! {

/// The text a risk entry is summarised with: the first character of its
/// bucket name (or `?`), a colon, and its count.
pub open spec fn risk_part(e: RiskCountEntry) -> Seq<char> {
    seq![if e.count_type@.len() > 0 { e.count_type@[0] } else { '?' }] + ":"@ + decimal(
        e.count as nat,
    )
}

/// The summaries of the entries with a non-zero count, in order.
pub open spec fn risk_parts(c: Seq<RiskCountEntry>) -> Seq<Seq<char>>
    decreases c.len(),
{
    if c.len() == 0 {
        seq![]
    } else {
        let rest = risk_parts(c.drop_last());
        if c.last().count > 0 {
            rest.push(risk_part(c.last()))
        } else {
            rest
        }
    }
}

/// A risk profile in one line, e.g. `"H:2 M:1"`, or `"none"` when no
/// bucket has findings.
pub open spec fn risk_text(risk: Option<&RiskCount>) -> Seq<char> {
    match risk {
        Some(r) => match r.counts {
            Some(c) => if risk_parts(c@).len() > 0 {
                join_spec(risk_parts(c@), " "@)
            } else {
                "none"@
            },
            None => "none"@,
        },
        None => "none"@,
    }
}

fn risk_part_exec(e: &RiskCountEntry) -> (r: String)
    ensures
        r@ == risk_part(*e),
{
    let name = crate::text::chars_of(e.count_type.as_str());
    let first = if name.len() > 0 {
        name[0]
    } else {
        '?'
    };
    let mut v: Vec<char> = Vec::new();
    v.push(first);
    let head = string_from_chars(&v);
    assert(head@ =~= seq![first]);
    let n = decimal_string(e.count);
    let a = concat(head.as_str(), ":");
    concat(a.as_str(), n.as_str())
}

/// A risk profile in one line, e.g. `"H:2 M:1"`, or `"none"` when no
/// bucket has findings.
pub fn risk_summary(risk: Option<&RiskCount>) -> (r: String)
    ensures
        r@ == risk_text(risk),
{
    if let Some(rc) = risk {
        if let Some(counts) = &rc.counts {
            let mut parts: Vec<String> = Vec::new();
            let mut i: usize = 0;
            while i < counts.len()
                invariant
                    i <= counts@.len(),
                    parts@.map_values(|p: String| p@) == risk_parts(counts@.take(i as int)),
                decreases counts@.len() - i,
            {
                let ghost pre = counts@.take(i as int);
                assert(counts@.take(i + 1).drop_last() =~= pre);
                assert(counts@.take(i + 1).last() == counts@[i as int]);
                if counts[i].count > 0 {
                    let p = risk_part_exec(&counts[i]);
                    let ghost before = parts@;
                    parts.push(p);
                    assert(parts@.map_values(|p: String| p@) =~= before.map_values(
                        |p: String| p@,
                    ).push(p@));
                }
                i = i + 1;
            }
            assert(counts@.take(counts@.len() as int) =~= counts@);
            if parts.len() > 0 {
                return join(&parts, " ");
            }
        }
    }
    String::from_str("none")
}

/// The navigation path shown in the status bar: the application name, the
/// selected project and version, and the open tab.
pub open spec fn breadcrumb_parts(app: App) -> Seq<Seq<char>> {
    let base = seq!["BlackDuck TUI"@];
    let with_project = match app.selected_project {
        Some(p) => base.push(p.name@),
        None => base,
    };
    let with_version = match app.selected_version {
        Some(v) => with_project.push(v.version_name@),
        None => with_project,
    };
    if app.screen == Screen::Components || app.screen == Screen::Vulnerabilities || app.screen
        == Screen::PolicyViolations {
        with_version.push(tab_title(app.version_tab))
    } else {
        with_version
    }
}

/// The title of a version tab.
pub open spec fn tab_title(t: VersionTab) -> Seq<char> {
    match t {
        VersionTab::Components => "Components"@,
        VersionTab::Vulnerabilities => "Vulnerabilities"@,
        VersionTab::PolicyViolations => "Policy Violations"@,
    }
}

/// The navigation path, e.g. `"BlackDuck TUI > proj > 1.0 > Components"`.
pub fn build_breadcrumb(app: &App) -> (r: String)
    ensures
        r@ == join_spec(breadcrumb_parts(*app), " > "@),
{
    let mut parts: Vec<String> = Vec::new();
    parts.push(String::from_str("BlackDuck TUI"));
    if let Some(p) = &app.selected_project {
        parts.push(p.name.clone());
    }
    if let Some(v) = &app.selected_version {
        parts.push(v.version_name.clone());
    }
    match app.screen {
        Screen::Components | Screen::Vulnerabilities | Screen::PolicyViolations => {
            parts.push(String::from_str(app.version_tab.title()));
        },
        _ => {},
    }
    assert(parts@.map_values(|p: String| p@) =~= breadcrumb_parts(*app));
    join(&parts, " > ")
}

/// Key hints shown in the status bar for a screen.
pub fn key_hint(screen: Screen) -> (r: &'static str)
    ensures
        r@ == match screen {
            Screen::Login => ""@,
            Screen::Projects => "j/k:move  Enter:open  /:search  r:refresh  Tab:switch  q:quit"@,
            Screen::Versions => "j/k:move  Enter:open  Backspace:back  /:search  q:quit"@,
            _ => "j/k:move  Tab:tab  Backspace:back  /:search  Tab:focus  q:quit"@,
        },
{
    match screen {
        Screen::Login => "",
        Screen::Projects => "j/k:move  Enter:open  /:search  r:refresh  Tab:switch  q:quit",
        Screen::Versions => "j/k:move  Enter:open  Backspace:back  /:search  q:quit",
        Screen::Components | Screen::Vulnerabilities | Screen::PolicyViolations => {
            "j/k:move  Tab:tab  Backspace:back  /:search  Tab:focus  q:quit"
        },
    }
}

/// How the status bar message is styled.
#[derive(Debug, Clone, Copy, PartialEq, Eq, Structural)]
pub enum MessageKind {
    Error,
    Status,
    Loading,
    Blank,
}

/// The status bar message: the error if any, else the status, else a
/// loading note while loading, else nothing.
pub fn status_line(app: &App) -> (r: (String, MessageKind))
    ensures
        app.error_message is Some ==> r.1 == MessageKind::Error && r.0@
            == app.error_message->0@,
        app.error_message is None && app.status_message is Some ==> r.1 == MessageKind::Status
            && r.0@ == app.status_message->0@,
        app.error_message is None && app.status_message is None && app.loading ==> r.1
            == MessageKind::Loading && r.0@ == "Loading..."@,
        app.error_message is None && app.status_message is None && !app.loading ==> r.1
            == MessageKind::Blank && r.0@.len() == 0,
{
    if let Some(err) = &app.error_message {
        (err.clone(), MessageKind::Error)
    } else if let Some(status) = &app.status_message {
        (status.clone(), MessageKind::Status)
    } else if app.loading {
        (String::from_str("Loading..."), MessageKind::Loading)
    } else {
        (String::new(), MessageKind::Blank)
    }
}

/// The smaller of two numbers.
pub open spec fn min_nat(a: nat, b: nat) -> nat {
    if a < b {
        a
    } else {
        b
    }
}

/// `n` asterisks.
pub open spec fn stars(n: nat) -> Seq<char> {
    Seq::new(n, |i: int| '*')
}

/// The masked form of the token field: one `*` per byte of the token, at
/// most forty.
pub fn masked_token(app: &App) -> (r: String)
    ensures
        r@ == stars(
            min_nat((vstd::utf8::encode_utf8(app.login_token_input@).len() as usize) as nat, 40),
        ),
{
    let text = app.login_token_input.as_str();
    let bytes = text.len();
    let n = if bytes < 40 {
        bytes
    } else {
        40
    };
    let mut v: Vec<char> = Vec::new();
    let mut i: usize = 0;
    while i < n
        invariant
            i <= n,
            v@ == stars(i as nat),
        decreases n - i,
    {
        v.push('*');
        i = i + 1;
        assert(v@ =~= stars(i as nat));
    }
    string_from_chars(&v)
}

/// The severity class a vulnerability is coloured by.
#[derive(Debug, Clone, Copy, PartialEq, Eq, Structural)]
pub enum Severity {
    Critical,
    High,
    Medium,
    Low,
    Other,
}

/// The Unicode upper-case mapping of a whole string, as computed by
/// `str::to_uppercase`.
pub uninterp spec fn uppercase(s: Seq<char>) -> Seq<char>;

/// Calls `str::to_uppercase`; the result is the named upper-case mapping
/// of the argument.
#[verifier::external_body]
fn to_uppercase(s: &str) -> (r: String)
    ensures
        r@ == uppercase(s@),
{
    s.to_uppercase()
}

/// The severity class of a severity name, matched without regard to case.
pub open spec fn severity_of(s: Seq<char>) -> Severity {
    let u = uppercase(s);
    if u == "CRITICAL"@ {
        Severity::Critical
    } else if u == "HIGH"@ {
        Severity::High
    } else if u == "MEDIUM"@ {
        Severity::Medium
    } else if u == "LOW"@ {
        Severity::Low
    } else {
        Severity::Other
    }
}

/// The severity class of a severity name, matched without regard to case.
pub fn severity_level(severity: &str) -> (r: Severity)
    ensures
        r == severity_of(severity@),
{
    let u = to_uppercase(severity);
    if str_eq(u.as_str(), "CRITICAL") {
        Severity::Critical
    } else if str_eq(u.as_str(), "HIGH") {
        Severity::High
    } else if str_eq(u.as_str(), "MEDIUM") {
        Severity::Medium
    } else if str_eq(u.as_str(), "LOW") {
        Severity::Low
    } else {
        Severity::Other
    }
}

} // verus!
