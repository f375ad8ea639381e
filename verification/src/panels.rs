//! What the list rows, titles and side panels of each screen say, piece by
//! piece, and in which tone each piece is drawn. Colours and layout are
//! chosen at the edge from the tones.
use vstd::prelude::*;
use vstd::string::*;
use crate::api::types::{BomComponent, ComponentLicense, LicenseInfo, Project, ProjectVersion, RiskCount, Vulnerability};
use crate::app::{field_at, texts, App, ComponentFilter, FilterField, VersionTab};
use crate::events::option_values;
use crate::ui::{risk_summary, risk_text, severity_level, severity_of};
use crate::text::{concat, decimal, decimal_string, chars_of, push_char, str_eq, string_from_chars};

verus! {

/// How a piece of text is drawn.
#[derive(Debug, Clone, Copy, PartialEq, Eq, Structural)]
pub enum Tone {
    /// Default text.
    Plain,
    /// A field label.
    Label,
    /// Secondary information.
    Muted,
    /// A call to action or a key.
    Accent,
    /// A heading in the accent colour.
    AccentBold,
    /// Work in progress or a dynamic value.
    Warning,
    /// A reviewed item.
    Success,
    /// Auxiliary text next to a value.
    Gray,
    /// A name set apart from its surroundings.
    White,
    /// A prominent name.
    WhiteBold,
    /// A policy violation.
    Danger,
    /// A prominent policy violation.
    DangerBold,
    /// A severity, coloured by its class.
    Rated(crate::ui::Severity),
    /// A prominent severity, coloured by its class.
    RatedBold(crate::ui::Severity),
}

/// A run of text in one tone.
#[derive(Debug)]
pub struct Piece {
    pub text: String,
    pub tone: Tone,
}

impl View for Piece {
    type V = (Seq<char>, Tone);

    open spec fn view(&self) -> (Seq<char>, Tone) {
        (self.text@, self.tone)
    }
}

/// The pieces of a line, as text and tone.
pub open spec fn line_view(l: Vec<Piece>) -> Seq<(Seq<char>, Tone)> {
    l@.map_values(|p: Piece| p@)
}

/// The lines of a panel, as text and tone.
pub open spec fn lines_view(ls: Vec<Vec<Piece>>) -> Seq<Seq<(Seq<char>, Tone)>> {
    ls@.map_values(|l: Vec<Piece>| line_view(l))
}

/// A piece of text in a tone.
pub open spec fn seg(text: Seq<char>, tone: Tone) -> (Seq<char>, Tone) {
    (text, tone)
}

/// The text of an optional field, or `dflt` when it is absent.
pub open spec fn or_default(o: Option<String>, dflt: Seq<char>) -> Seq<char> {
    match o {
        Some(s) => s@,
        None => dflt,
    }
}

fn piece(text: &str, tone: Tone) -> (r: Piece)
    ensures
        r@ == seg(text@, tone),
{
    Piece { text: String::from_str(text), tone }
}

fn owned(text: String, tone: Tone) -> (r: Piece)
    ensures
        r@ == seg(text@, tone),
{
    Piece { text, tone }
}

fn line1(a: Piece) -> (r: Vec<Piece>)
    ensures
        line_view(r) == seq![a@],
{
    let ghost va = a@;
    let mut v: Vec<Piece> = Vec::new();
    v.push(a);
    assert(line_view(v) =~= seq![va]);
    v
}

fn line2(a: Piece, b: Piece) -> (r: Vec<Piece>)
    ensures
        line_view(r) == seq![a@, b@],
{
    let ghost (va, vb) = (a@, b@);
    let mut v: Vec<Piece> = Vec::new();
    v.push(a);
    v.push(b);
    assert(line_view(v) =~= seq![va, vb]);
    v
}

fn line4(a: Piece, b: Piece, c: Piece, d: Piece) -> (r: Vec<Piece>)
    ensures
        line_view(r) == seq![a@, b@, c@, d@],
{
    let ghost (va, vb, vc, vd) = (a@, b@, c@, d@);
    let mut v: Vec<Piece> = Vec::new();
    v.push(a);
    v.push(b);
    v.push(c);
    v.push(d);
    assert(line_view(v) =~= seq![va, vb, vc, vd]);
    v
}

fn push_line(lines: &mut Vec<Vec<Piece>>, l: Vec<Piece>)
    ensures
        lines_view(*final(lines)) == lines_view(*old(lines)).push(line_view(l)),
{
    let ghost vl = line_view(l);
    lines.push(l);
    assert(lines_view(*lines) =~= lines_view(*old(lines)).push(vl));
}

fn push_blank(lines: &mut Vec<Vec<Piece>>)
    ensures
        lines_view(*final(lines)) == lines_view(*old(lines)).push(seq![]),
{
    let v: Vec<Piece> = Vec::new();
    assert(line_view(v) =~= seq![]);
    push_line(lines, v);
}

fn text_or<'a>(o: &'a Option<String>, dflt: &'a str) -> (r: &'a str)
    ensures
        r@ == or_default(*o, dflt@),
{
    match o {
        Some(s) => s.as_str(),
        None => dflt,
    }
}

// ---------------------------------------------------------------------------
// Titles
// ---------------------------------------------------------------------------

/// The title of the project list, e.g. `" Projects (12) "`.
pub open spec fn projects_title_spec(app: App) -> Seq<char> {
    " Projects ("@ + decimal(app.projects.items@.len()) + ") "@
}

/// The title of the project list, e.g. `" Projects (12) "`.
pub fn projects_title(app: &App) -> (r: String)
    ensures
        r@ == projects_title_spec(*app),
{
    let n = decimal_string(app.projects.items.len() as u64);
    let a = concat(" Projects (", n.as_str());
    concat(a.as_str(), ") ")
}

/// The title of the version list: the selected project's name (or
/// `Project`) and the number of versions, e.g. `" app - Versions (3) "`.
pub open spec fn versions_title_spec(app: App) -> Seq<char> {
    let name = match app.selected_project {
        Some(p) => p.name@,
        None => "Project"@,
    };
    " "@ + name + " - Versions ("@ + decimal(app.versions.items@.len()) + ") "@
}

/// The title of the version list: the selected project's name (or
/// `Project`) and the number of versions, e.g. `" app - Versions (3) "`.
pub fn versions_title(app: &App) -> (r: String)
    ensures
        r@ == versions_title_spec(*app),
{
    let name = match &app.selected_project {
        Some(p) => p.name.as_str(),
        None => "Project",
    };
    let n = decimal_string(app.versions.items.len() as u64);
    let a = concat(" ", name);
    let b = concat(a.as_str(), " - Versions (");
    let c = concat(b.as_str(), n.as_str());
    concat(c.as_str(), ") ")
}

// ---------------------------------------------------------------------------
// Projects
// ---------------------------------------------------------------------------

/// The first `n` characters of `s` (all of it when shorter).
pub open spec fn first_chars(s: Seq<char>, n: nat) -> Seq<char> {
    if s.len() <= n {
        s
    } else {
        s.take(n as int)
    }
}

fn prefix_chars(s: &str, n: usize) -> (r: String)
    ensures
        r@ == first_chars(s@, n as nat),
{
    let v = chars_of(s);
    let mut out: Vec<char> = Vec::new();
    let mut i: usize = 0;
    while i < v.len() && i < n
        invariant
            i <= v@.len(),
            i <= n,
            v@ == s@,
            out@ == s@.take(i as int),
        decreases v@.len() - i,
    {
        out.push(v[i]);
        i = i + 1;
        assert(out@ =~= s@.take(i as int));
    }
    assert(s@.len() <= n ==> s@.take(i as int) =~= s@);
    string_from_chars(&out)
}

/// The row of a project in the list: its name, then a dash and the first
/// forty characters of its description when that is not empty.
pub open spec fn project_row_spec(p: Project) -> Seq<(Seq<char>, Tone)> {
    let d = first_chars(or_default(p.description, ""@), 40);
    if d.len() == 0 {
        seq![seg(p.name@, Tone::Plain)]
    } else {
        seq![seg(p.name@, Tone::Plain), seg(" - "@ + d, Tone::Muted)]
    }
}

/// The row of a project in the list: its name, then a dash and the first
/// forty characters of its description when that is not empty.
pub fn project_row(p: &Project) -> (r: Vec<Piece>)
    ensures
        line_view(r) == project_row_spec(*p),
{
    let d = prefix_chars(text_or(&p.description, ""), 40);
    if d.as_str().unicode_len() == 0 {
        line1(owned(p.name.clone(), Tone::Plain))
    } else {
        let dashed = concat(" - ", d.as_str());
        line2(owned(p.name.clone(), Tone::Plain), owned(dashed, Tone::Muted))
    }
}

/// The keys listed when no project is selected.
pub open spec fn project_help_spec() -> Seq<Seq<(Seq<char>, Tone)>> {
    seq![
        seq![seg("No project selected"@, Tone::Muted)],
        seq![],
        seq![seg("Keybindings:"@, Tone::AccentBold)],
        seq![seg("  j/↓  "@, Tone::Accent), seg("move down"@, Tone::Plain)],
        seq![seg("  k/↑  "@, Tone::Accent), seg("move up"@, Tone::Plain)],
        seq![seg("  Enter"@, Tone::Accent), seg("  open versions"@, Tone::Plain)],
        seq![seg("  /    "@, Tone::Accent), seg("  search"@, Tone::Plain)],
        seq![seg("  r    "@, Tone::Accent), seg("  refresh"@, Tone::Plain)],
        seq![seg("  q    "@, Tone::Accent), seg("  quit"@, Tone::Plain)],
    ]
}

fn project_help() -> (r: Vec<Vec<Piece>>)
    ensures
        lines_view(r) == project_help_spec(),
{
    let mut lines: Vec<Vec<Piece>> = Vec::new();
    push_line(&mut lines, line1(piece("No project selected", Tone::Muted)));
    push_blank(&mut lines);
    push_line(&mut lines, line1(piece("Keybindings:", Tone::AccentBold)));
    push_line(&mut lines, line2(piece("  j/↓  ", Tone::Accent), piece("move down", Tone::Plain)));
    push_line(&mut lines, line2(piece("  k/↑  ", Tone::Accent), piece("move up", Tone::Plain)));
    push_line(
        &mut lines,
        line2(piece("  Enter", Tone::Accent), piece("  open versions", Tone::Plain)),
    );
    push_line(&mut lines, line2(piece("  /    ", Tone::Accent), piece("  search", Tone::Plain)));
    push_line(&mut lines, line2(piece("  r    ", Tone::Accent), piece("  refresh", Tone::Plain)));
    push_line(&mut lines, line2(piece("  q    ", Tone::Accent), piece("  quit", Tone::Plain)));
    assert(lines_view(lines) =~= project_help_spec());
    lines
}

/// The project panel: the selected project's name, description and URL
/// with a hint to open it; a loading note while projects load; otherwise
/// the key bindings.
pub open spec fn project_info_spec(app: App) -> Seq<Seq<(Seq<char>, Tone)>> {
    let items = app.projects.items@;
    let sel = app.projects.selected as int;
    if sel < items.len() {
        let p = items[sel];
        let a = seq![seq![seg("Name: "@, Tone::Label), seg(p.name@, Tone::Plain)]];
        let b = match p.description {
            Some(d) => a.push(seq![seg("Description: "@, Tone::Label), seg(d@, Tone::Plain)]),
            None => a,
        };
        let c = match p.href_spec() {
            Some(h) => b.push(seq![]).push(seq![seg("URL: "@, Tone::Muted), seg(h, Tone::Muted)]),
            None => b,
        };
        c.push(seq![]).push(seq![seg("Press Enter to view versions"@, Tone::Accent)])
    } else if app.loading {
        seq![seq![seg("Loading projects..."@, Tone::Warning)]]
    } else {
        project_help_spec()
    }
}

/// The project panel: the selected project's name, description and URL
/// with a hint to open it; a loading note while projects load; otherwise
/// the key bindings.
pub fn project_info(app: &App) -> (r: Vec<Vec<Piece>>)
    ensures
        lines_view(r) == project_info_spec(*app),
{
    if let Some(p) = app.projects.selected_item() {
        let mut lines: Vec<Vec<Piece>> = Vec::new();
        push_line(
            &mut lines,
            line2(piece("Name: ", Tone::Label), owned(p.name.clone(), Tone::Plain)),
        );
        if let Some(desc) = &p.description {
            push_line(
                &mut lines,
                line2(piece("Description: ", Tone::Label), owned(desc.clone(), Tone::Plain)),
            );
        }
        if let Some(href) = p.href() {
            push_blank(&mut lines);
            push_line(
                &mut lines,
                line2(piece("URL: ", Tone::Muted), piece(href, Tone::Muted)),
            );
        }
        push_blank(&mut lines);
        push_line(&mut lines, line1(piece("Press Enter to view versions", Tone::Accent)));
        lines
    } else if app.loading {
        let mut lines: Vec<Vec<Piece>> = Vec::new();
        push_line(&mut lines, line1(piece("Loading projects...", Tone::Warning)));
        lines
    } else {
        project_help()
    }
}

// ---------------------------------------------------------------------------
// Versions
// ---------------------------------------------------------------------------

/// The row of a version in the list: its name and, in brackets, its phase
/// (or `-`).
pub open spec fn version_row_spec(v: ProjectVersion) -> Seq<(Seq<char>, Tone)> {
    seq![
        seg(v.version_name@, Tone::Plain),
        seg(" ["@ + or_default(v.phase, "-"@) + "]"@, Tone::Muted),
    ]
}

/// The row of a version in the list: its name and, in brackets, its phase
/// (or `-`).
pub fn version_row(v: &ProjectVersion) -> (r: Vec<Piece>)
    ensures
        line_view(r) == version_row_spec(*v),
{
    let a = concat(" [", text_or(&v.phase, "-"));
    let b = concat(a.as_str(), "]");
    line2(owned(v.version_name.clone(), Tone::Plain), owned(b, Tone::Muted))
}

/// The version panel: the selected version's name, phase, distribution
/// and dates with hints; a loading note while versions load; otherwise a
/// note that nothing is selected.
pub open spec fn version_info_spec(app: App) -> Seq<Seq<(Seq<char>, Tone)>> {
    let items = app.versions.items@;
    let sel = app.versions.selected as int;
    if sel < items.len() {
        let v = items[sel];
        let a = seq![
            seq![seg("Version: "@, Tone::Label), seg(v.version_name@, Tone::Plain)],
            seq![seg("Phase:   "@, Tone::Label), seg(or_default(v.phase, "-"@), Tone::Plain)],
            seq![
                seg("Distribution: "@, Tone::Label),
                seg(or_default(v.distribution, "-"@), Tone::Plain),
            ],
        ];
        let b = match v.released_on {
            Some(d) => a.push(seq![seg("Released: "@, Tone::Label), seg(d@, Tone::Plain)]),
            None => a,
        };
        let c = match v.created_at {
            Some(d) => b.push(seq![seg("Created:  "@, Tone::Label), seg(d@, Tone::Plain)]),
            None => b,
        };
        c.push(seq![]).push(
            seq![seg("Press Enter to view components/vulnerabilities"@, Tone::Accent)],
        ).push(seq![seg("Press Backspace to go back"@, Tone::Muted)])
    } else if app.loading {
        seq![seq![seg("Loading versions..."@, Tone::Warning)]]
    } else {
        seq![seq![seg("No version selected"@, Tone::Muted)]]
    }
}

/// The version panel: the selected version's name, phase, distribution
/// and dates with hints; a loading note while versions load; otherwise a
/// note that nothing is selected.
pub fn version_info(app: &App) -> (r: Vec<Vec<Piece>>)
    ensures
        lines_view(r) == version_info_spec(*app),
{
    let mut lines: Vec<Vec<Piece>> = Vec::new();
    if let Some(v) = app.versions.selected_item() {
        push_line(
            &mut lines,
            line2(piece("Version: ", Tone::Label), owned(v.version_name.clone(), Tone::Plain)),
        );
        push_line(
            &mut lines,
            line2(piece("Phase:   ", Tone::Label), piece(text_or(&v.phase, "-"), Tone::Plain)),
        );
        push_line(
            &mut lines,
            line2(
                piece("Distribution: ", Tone::Label),
                piece(text_or(&v.distribution, "-"), Tone::Plain),
            ),
        );
        if let Some(rel) = &v.released_on {
            push_line(
                &mut lines,
                line2(piece("Released: ", Tone::Label), owned(rel.clone(), Tone::Plain)),
            );
        }
        if let Some(created) = &v.created_at {
            push_line(
                &mut lines,
                line2(piece("Created:  ", Tone::Label), owned(created.clone(), Tone::Plain)),
            );
        }
        push_blank(&mut lines);
        push_line(
            &mut lines,
            line1(piece("Press Enter to view components/vulnerabilities", Tone::Accent)),
        );
        push_line(&mut lines, line1(piece("Press Backspace to go back", Tone::Muted)));
    } else if app.loading {
        push_line(&mut lines, line1(piece("Loading versions...", Tone::Warning)));
    } else {
        push_line(&mut lines, line1(piece("No version selected", Tone::Muted)));
    }
    assert(lines_view(lines) =~= version_info_spec(*app));
    lines
}

// ---------------------------------------------------------------------------
// Version detail lists
// ---------------------------------------------------------------------------

/// The title of a version-detail list: the selected version's name (or
/// `Version`), the tab and the number of entries of that list, e.g.
/// `" 1.0 - Components (7) "`.
pub open spec fn detail_title_spec(app: App, tab: VersionTab) -> Seq<char> {
    let name = match app.selected_version {
        Some(v) => v.version_name@,
        None => "Version"@,
    };
    let n = match tab {
        VersionTab::Components => app.components.items@.len(),
        VersionTab::Vulnerabilities => app.vulnerabilities.items@.len(),
        VersionTab::PolicyViolations => app.policy_violations.items@.len(),
    };
    " "@ + name + " - "@ + crate::ui::tab_title(tab) + " ("@ + decimal(n) + ") "@
}

/// The title of a version-detail list: the selected version's name (or
/// `Version`), the tab and the number of entries of that list, e.g.
/// `" 1.0 - Components (7) "`.
pub fn detail_title(app: &App, tab: VersionTab) -> (r: String)
    ensures
        r@ == detail_title_spec(*app, tab),
{
    let name = match &app.selected_version {
        Some(v) => v.version_name.as_str(),
        None => "Version",
    };
    let n: usize = match tab {
        VersionTab::Components => app.components.items.len(),
        VersionTab::Vulnerabilities => app.vulnerabilities.items.len(),
        VersionTab::PolicyViolations => app.policy_violations.items.len(),
    };
    let count = decimal_string(n as u64);
    let a = concat(" ", name);
    let b = concat(a.as_str(), " - ");
    let c = concat(b.as_str(), tab.title());
    let d = concat(c.as_str(), " (");
    let e = concat(d.as_str(), count.as_str());
    concat(e.as_str(), ") ")
}

/// `s` padded with spaces on the right to at least `w` characters.
pub open spec fn pad_right(s: Seq<char>, w: nat) -> Seq<char> {
    if s.len() < w {
        s + Seq::new((w - s.len()) as nat, |i: int| ' ')
    } else {
        s
    }
}

fn padded(s: &str, w: usize) -> (r: String)
    ensures
        r@ == pad_right(s@, w as nat),
{
    let mut out = String::from_str(s);
    let n = s.unicode_len();
    let mut k: usize = n;
    while k < w
        invariant
            n == s@.len(),
            n <= k <= w || (k == n && n >= w),
            out@ == s@ + Seq::new((k - n) as nat, |i: int| ' '),
        decreases w - k,
    {
        push_char(&mut out, ' ');
        k = k + 1;
        assert(out@ =~= s@ + Seq::new((k - n) as nat, |i: int| ' '));
    }
    assert(n >= w ==> out@ =~= s@);
    out
}

/// The tone of a review status in the component list.
pub open spec fn review_tone(review: Seq<char>) -> Tone {
    if review == "REVIEWED"@ {
        Tone::Success
    } else if review == "DYNAMIC"@ {
        Tone::Warning
    } else {
        Tone::Muted
    }
}

/// The row of a component in the list: its name, `@` and its version (or
/// `?`), and its review status (or `UNREVIEWED`) in brackets.
pub open spec fn component_row_spec(c: BomComponent) -> Seq<(Seq<char>, Tone)> {
    let review = or_default(c.review_status, "UNREVIEWED"@);
    seq![
        seg(c.component_name@, Tone::Plain),
        seg("@"@ + or_default(c.component_version_name, "?"@), Tone::Gray),
        seg(" "@, Tone::Plain),
        seg("["@ + review + "]"@, review_tone(review)),
    ]
}

/// The row of a component in the list: its name, `@` and its version (or
/// `?`), and its review status (or `UNREVIEWED`) in brackets.
pub fn component_row(c: &BomComponent) -> (r: Vec<Piece>)
    ensures
        line_view(r) == component_row_spec(*c),
{
    let review = text_or(&c.review_status, "UNREVIEWED");
    let tone = if str_eq(review, "REVIEWED") {
        Tone::Success
    } else if str_eq(review, "DYNAMIC") {
        Tone::Warning
    } else {
        Tone::Muted
    };
    let ver = concat("@", text_or(&c.component_version_name, "?"));
    let a = concat("[", review);
    let bracketed = concat(a.as_str(), "]");
    line4(
        owned(c.component_name.clone(), Tone::Plain),
        owned(ver, Tone::Gray),
        piece(" ", Tone::Plain),
        owned(bracketed, tone),
    )
}

/// The score shown for a vulnerability: the CVSS3 score when there is one,
/// else the CVSS2 score, else `?`.
pub open spec fn score_text(cvss3: Option<&str>, cvss2: Option<&str>) -> Seq<char> {
    match cvss3 {
        Some(s) => s@,
        None => match cvss2 {
            Some(s) => s@,
            None => "?"@,
        },
    }
}

/// `cvss3` and `cvss2` are given exactly when the entry's vulnerability
/// record carries a CVSS3 and a CVSS2 score.
pub open spec fn scores_given(v: Vulnerability, cvss3: Option<&str>, cvss2: Option<&str>) -> bool {
    match v.vulnerability_with_remediation {
        Some(d) => (cvss3 is Some <==> d.cvss3_score_bits is Some) && (cvss2 is Some
            <==> d.cvss2_score_bits is Some),
        None => true,
    }
}

/// The row of a vulnerable entry in the list: its severity (or `?`),
/// padded to eight characters in brackets and coloured by its class, the
/// vulnerability's name, the score in parentheses and the component's name
/// (or `?`). `cvss3` and `cvss2` are the entry's scores as written for
/// display, given exactly when the entry has them. An entry without a
/// vulnerability record reads `Unknown vulnerability`.
pub open spec fn vulnerability_row_spec(
    v: Vulnerability,
    cvss3: Option<&str>,
    cvss2: Option<&str>,
) -> Seq<(Seq<char>, Tone)> {
    match v.vulnerability_with_remediation {
        Some(d) => {
            let sev = or_default(d.severity, "?"@);
            seq![
                seg("["@ + pad_right(sev, 8) + "]"@, Tone::Rated(severity_of(sev))),
                seg(" "@, Tone::Plain),
                seg(d.vulnerability_name@, Tone::WhiteBold),
                seg(" ("@ + score_text(cvss3, cvss2) + ")"@, Tone::Muted),
                seg(" - "@ + or_default(v.component_name, "?"@), Tone::Gray),
            ]
        },
        None => seq![seg("Unknown vulnerability"@, Tone::Plain)],
    }
}

/// The row of a vulnerable entry in the list: its severity (or `?`),
/// padded to eight characters in brackets and coloured by its class, the
/// vulnerability's name, the score in parentheses and the component's name
/// (or `?`). `cvss3` and `cvss2` are the entry's scores as written for
/// display, given exactly when the entry has them. An entry without a
/// vulnerability record reads `Unknown vulnerability`.
pub fn vulnerability_row(v: &Vulnerability, cvss3: Option<&str>, cvss2: Option<&str>) -> (r: Vec<
    Piece,
>)
    requires
        scores_given(*v, cvss3, cvss2),
    ensures
        line_view(r) == vulnerability_row_spec(*v, cvss3, cvss2),
{
    match &v.vulnerability_with_remediation {
        Some(d) => {
            let sev = text_or(&d.severity, "?");
            let class = severity_level(sev);
            let p = padded(sev, 8);
            let a = concat("[", p.as_str());
            let tag = concat(a.as_str(), "]");
            let score = match cvss3 {
                Some(s) => s,
                None => match cvss2 {
                    Some(s) => s,
                    None => "?",
                },
            };
            let b = concat(" (", score);
            let scored = concat(b.as_str(), ")");
            let comp = concat(" - ", text_or(&v.component_name, "?"));
            let ghost (v1, v2, v3, v4, v5) = (
                seg(tag@, Tone::Rated(class)),
                seg(" "@, Tone::Plain),
                seg(d.vulnerability_name@, Tone::WhiteBold),
                seg(scored@, Tone::Muted),
                seg(comp@, Tone::Gray),
            );
            let mut l: Vec<Piece> = Vec::new();
            l.push(owned(tag, Tone::Rated(class)));
            l.push(piece(" ", Tone::Plain));
            l.push(owned(d.vulnerability_name.clone(), Tone::WhiteBold));
            l.push(owned(scored, Tone::Muted));
            l.push(owned(comp, Tone::Gray));
            assert(line_view(l) =~= seq![v1, v2, v3, v4, v5]);
            l
        },
        None => line1(piece("Unknown vulnerability", Tone::Plain)),
    }
}

/// The row of a policy violation in the list: its policy status (or
/// `IN_VIOLATION`) padded to twelve characters in brackets, the component's
/// name, and `@` with its version (or `?`).
pub open spec fn policy_row_spec(c: BomComponent) -> Seq<(Seq<char>, Tone)> {
    seq![
        seg("["@ + pad_right(or_default(c.policy_status, "IN_VIOLATION"@), 12) + "]"@, Tone::Danger),
        seg(" "@, Tone::Plain),
        seg(c.component_name@, Tone::Plain),
        seg("@"@ + or_default(c.component_version_name, "?"@), Tone::Gray),
    ]
}

/// The row of a policy violation in the list: its policy status (or
/// `IN_VIOLATION`) padded to twelve characters in brackets, the component's
/// name, and `@` with its version (or `?`).
pub fn policy_row(c: &BomComponent) -> (r: Vec<Piece>)
    ensures
        line_view(r) == policy_row_spec(*c),
{
    let p = padded(text_or(&c.policy_status, "IN_VIOLATION"), 12);
    let a = concat("[", p.as_str());
    let tag = concat(a.as_str(), "]");
    let ver = concat("@", text_or(&c.component_version_name, "?"));
    line4(
        owned(tag, Tone::Danger),
        piece(" ", Tone::Plain),
        owned(c.component_name.clone(), Tone::Plain),
        owned(ver, Tone::Gray),
    )
}

// ---------------------------------------------------------------------------
// Detail panels
// ---------------------------------------------------------------------------

/// The names carried by the license records of a license entry, in order.
pub open spec fn info_names(s: Seq<LicenseInfo>) -> Seq<Seq<char>>
    decreases s.len(),
{
    if s.len() == 0 {
        seq![]
    } else {
        let rest = info_names(s.drop_last());
        match s.last().name {
            Some(n) => rest.push(n@),
            None => rest,
        }
    }
}

/// The names a license entry lists: its own name when it has one,
/// otherwise the names of the licenses it is made of.
pub open spec fn entry_names(l: ComponentLicense) -> Seq<Seq<char>> {
    match l.license_name {
        Some(n) => seq![n@],
        None => match l.licenses {
            Some(sub) => info_names(sub@),
            None => seq![],
        },
    }
}

/// The license names of a component's license entries, in order.
pub open spec fn license_names(ls: Seq<ComponentLicense>) -> Seq<Seq<char>>
    decreases ls.len(),
{
    if ls.len() == 0 {
        seq![]
    } else {
        license_names(ls.drop_last()) + entry_names(ls.last())
    }
}

/// A bulleted line naming a license.
pub open spec fn bullet(n: Seq<char>) -> Seq<(Seq<char>, Tone)> {
    seq![seg("  • "@, Tone::Plain), seg(n, Tone::White)]
}

/// One bulleted line per name.
pub open spec fn bullets(ns: Seq<Seq<char>>) -> Seq<Seq<(Seq<char>, Tone)>> {
    ns.map_values(|n: Seq<char>| bullet(n))
}

proof fn lemma_bullets_push(base: Seq<Seq<(Seq<char>, Tone)>>, x: Seq<Seq<char>>, n: Seq<char>)
    ensures
        (base + bullets(x)).push(bullet(n)) == base + bullets(x.push(n)),
{
    assert((base + bullets(x)).push(bullet(n)) =~= base + bullets(x.push(n)));
}

fn push_bullet(lines: &mut Vec<Vec<Piece>>, n: &String)
    ensures
        lines_view(*final(lines)) == lines_view(*old(lines)).push(bullet(n@)),
{
    push_line(lines, line2(piece("  • ", Tone::Plain), owned(n.clone(), Tone::White)));
}

fn push_license_lines(lines: &mut Vec<Vec<Piece>>, lics: &Vec<ComponentLicense>)
    ensures
        lines_view(*final(lines)) == lines_view(*old(lines)) + bullets(license_names(lics@)),
{
    let ghost base = lines_view(*lines);
    assert(base + bullets(license_names(lics@.take(0))) =~= base);
    let mut i: usize = 0;
    while i < lics.len()
        invariant
            i <= lics@.len(),
            lines_view(*lines) == base + bullets(license_names(lics@.take(i as int))),
        decreases lics@.len() - i,
    {
        let ghost done = license_names(lics@.take(i as int));
        assert(lics@.take(i + 1).drop_last() =~= lics@.take(i as int));
        assert(lics@.take(i + 1).last() == lics@[i as int]);
        let lic = &lics[i];
        if let Some(name) = &lic.license_name {
            proof {
                lemma_bullets_push(base, done, name@);
                assert(done + entry_names(*lic) =~= done.push(name@));
            }
            push_bullet(lines, name);
        } else if let Some(sub) = &lic.licenses {
            assert(done + info_names(sub@.take(0)) =~= done);
            let mut j: usize = 0;
            while j < sub.len()
                invariant
                    j <= sub@.len(),
                    lines_view(*lines) == base + bullets(done + info_names(sub@.take(j as int))),
                decreases sub@.len() - j,
            {
                let ghost got = info_names(sub@.take(j as int));
                assert(sub@.take(j + 1).drop_last() =~= sub@.take(j as int));
                assert(sub@.take(j + 1).last() == sub@[j as int]);
                if let Some(n) = &sub[j].name {
                    proof {
                        lemma_bullets_push(base, done + got, n@);
                        assert((done + got).push(n@) =~= done + got.push(n@));
                    }
                    push_bullet(lines, n);
                }
                j = j + 1;
            }
            assert(sub@.take(sub@.len() as int) =~= sub@);
        } else {
            assert(done + entry_names(*lic) =~= done);
        }
        i = i + 1;
    }
    assert(lics@.take(lics@.len() as int) =~= lics@);
}

/// The licenses block of a component panel: a heading and one bulleted
/// line per license name, when the component has a non-empty license list.
pub open spec fn licenses_block(ls: Option<Vec<ComponentLicense>>) -> Seq<
    Seq<(Seq<char>, Tone)>,
> {
    match ls {
        Some(l) => if l@.len() > 0 {
            seq![seq![], seq![seg("Licenses:"@, Tone::Label)]] + bullets(license_names(l@))
        } else {
            seq![]
        },
        None => seq![],
    }
}

/// The one-line summary of an optional risk profile.
pub open spec fn risk_of(o: Option<RiskCount>) -> Seq<char> {
    match o {
        Some(r) => risk_text(Some(&r)),
        None => risk_text(None),
    }
}

/// The risk block of a component panel: a heading and the summaries of the
/// security, license and operational risk profiles.
pub open spec fn risk_block(c: BomComponent) -> Seq<Seq<(Seq<char>, Tone)>> {
    seq![
        seq![],
        seq![seg("Risk Profile:"@, Tone::Label)],
        seq![seg("  Security:    "@, Tone::Gray), seg(risk_of(c.security_risk_profile), Tone::Plain)],
        seq![seg("  License:     "@, Tone::Gray), seg(risk_of(c.license_risk_profile), Tone::Plain)],
        seq![
            seg("  Operational: "@, Tone::Gray),
            seg(risk_of(c.operational_risk_profile), Tone::Plain),
        ],
    ]
}

fn push_licenses_block(lines: &mut Vec<Vec<Piece>>, c: &BomComponent)
    ensures
        lines_view(*final(lines)) == lines_view(*old(lines)) + licenses_block(c.licenses),
{
    let ghost base = lines_view(*lines);
    if let Some(lic_list) = &c.licenses {
        if lic_list.len() > 0 {
            push_blank(lines);
            push_line(lines, line1(piece("Licenses:", Tone::Label)));
            push_license_lines(lines, lic_list);
            assert(base.push(seq![]).push(seq![seg("Licenses:"@, Tone::Label)]) + bullets(
                license_names(lic_list@),
            ) =~= base + licenses_block(c.licenses));
        } else {
            assert(base + licenses_block(c.licenses) =~= base);
        }
    } else {
        assert(base + licenses_block(c.licenses) =~= base);
    }
}

fn risk_line(label: &str, risk: Option<&RiskCount>) -> (r: Vec<Piece>)
    ensures
        line_view(r) == seq![seg(label@, Tone::Gray), seg(risk_text(risk), Tone::Plain)],
{
    line2(piece(label, Tone::Gray), owned(risk_summary(risk), Tone::Plain))
}

fn push_risk_block(lines: &mut Vec<Vec<Piece>>, c: &BomComponent)
    ensures
        lines_view(*final(lines)) == lines_view(*old(lines)) + risk_block(*c),
{
    let ghost base = lines_view(*lines);
    push_blank(lines);
    push_line(lines, line1(piece("Risk Profile:", Tone::Label)));
    push_line(lines, risk_line("  Security:    ", c.security_risk_profile.as_ref()));
    push_line(lines, risk_line("  License:     ", c.license_risk_profile.as_ref()));
    push_line(lines, risk_line("  Operational: ", c.operational_risk_profile.as_ref()));
    assert(lines_view(*lines) =~= base + risk_block(*c));
}

/// The component panel: the selected component's name, version and review
/// status, its licenses and its risk profiles; otherwise a prompt to select
/// one.
pub open spec fn component_detail_spec(app: App) -> Seq<Seq<(Seq<char>, Tone)>> {
    let items = app.components.items@;
    let sel = app.components.selected as int;
    if sel < items.len() {
        let c = items[sel];
        seq![
            seq![seg("Name:    "@, Tone::Label), seg(c.component_name@, Tone::Plain)],
            seq![
                seg("Version: "@, Tone::Label),
                seg(or_default(c.component_version_name, "-"@), Tone::Plain),
            ],
            seq![seg("Review:  "@, Tone::Label), seg(or_default(c.review_status, "-"@), Tone::Plain)],
        ] + licenses_block(c.licenses) + risk_block(c)
    } else {
        seq![seq![seg("Select a component"@, Tone::Muted)]]
    }
}

/// The component panel: the selected component's name, version and review
/// status, its licenses and its risk profiles; otherwise a prompt to select
/// one.
pub fn component_detail(app: &App) -> (r: Vec<Vec<Piece>>)
    ensures
        lines_view(r) == component_detail_spec(*app),
{
    let mut lines: Vec<Vec<Piece>> = Vec::new();
    if let Some(c) = app.components.selected_item() {
        push_line(
            &mut lines,
            line2(piece("Name:    ", Tone::Label), owned(c.component_name.clone(), Tone::Plain)),
        );
        push_line(
            &mut lines,
            line2(
                piece("Version: ", Tone::Label),
                piece(text_or(&c.component_version_name, "-"), Tone::Plain),
            ),
        );
        push_line(
            &mut lines,
            line2(piece("Review:  ", Tone::Label), piece(text_or(&c.review_status, "-"), Tone::Plain)),
        );
        let ghost head = lines_view(lines);
        push_licenses_block(&mut lines, c);
        push_risk_block(&mut lines, c);
        assert(head + licenses_block(c.licenses) + risk_block(*c) =~= component_detail_spec(*app));
    } else {
        push_line(&mut lines, line1(piece("Select a component", Tone::Muted)));
        assert(lines_view(lines) =~= component_detail_spec(*app));
    }
    lines
}

/// The policy violation panel: the selected entry's component name,
/// version, policy status (or `IN_VIOLATION`) and review status, its
/// licenses and its risk profiles; otherwise a prompt to select one.
pub open spec fn policy_detail_spec(app: App) -> Seq<Seq<(Seq<char>, Tone)>> {
    let items = app.policy_violations.items@;
    let sel = app.policy_violations.selected as int;
    if sel < items.len() {
        let c = items[sel];
        seq![
            seq![seg("Component: "@, Tone::Label), seg(c.component_name@, Tone::Plain)],
            seq![
                seg("Version:   "@, Tone::Label),
                seg(or_default(c.component_version_name, "-"@), Tone::Plain),
            ],
            seq![
                seg("Status:    "@, Tone::Label),
                seg(or_default(c.policy_status, "IN_VIOLATION"@), Tone::DangerBold),
            ],
            seq![seg("Review:    "@, Tone::Label), seg(or_default(c.review_status, "-"@), Tone::Plain)],
        ] + licenses_block(c.licenses) + risk_block(c)
    } else {
        seq![seq![seg("Select a policy violation"@, Tone::Muted)]]
    }
}

/// The policy violation panel: the selected entry's component name,
/// version, policy status (or `IN_VIOLATION`) and review status, its
/// licenses and its risk profiles; otherwise a prompt to select one.
pub fn policy_detail(app: &App) -> (r: Vec<Vec<Piece>>)
    ensures
        lines_view(r) == policy_detail_spec(*app),
{
    let mut lines: Vec<Vec<Piece>> = Vec::new();
    if let Some(c) = app.policy_violations.selected_item() {
        push_line(
            &mut lines,
            line2(piece("Component: ", Tone::Label), owned(c.component_name.clone(), Tone::Plain)),
        );
        push_line(
            &mut lines,
            line2(
                piece("Version:   ", Tone::Label),
                piece(text_or(&c.component_version_name, "-"), Tone::Plain),
            ),
        );
        push_line(
            &mut lines,
            line2(
                piece("Status:    ", Tone::Label),
                piece(text_or(&c.policy_status, "IN_VIOLATION"), Tone::DangerBold),
            ),
        );
        push_line(
            &mut lines,
            line2(piece("Review:    ", Tone::Label), piece(text_or(&c.review_status, "-"), Tone::Plain)),
        );
        let ghost head = lines_view(lines);
        push_licenses_block(&mut lines, c);
        push_risk_block(&mut lines, c);
        assert(head + licenses_block(c.licenses) + risk_block(*c) =~= policy_detail_spec(*app));
    } else {
        push_line(&mut lines, line1(piece("Select a policy violation", Tone::Muted)));
        assert(lines_view(lines) =~= policy_detail_spec(*app));
    }
    lines
}

/// `ls` with a labelled line for `value` when it is present.
#[verifier::opaque]
pub open spec fn with_field(
    ls: Seq<Seq<(Seq<char>, Tone)>>,
    label: Seq<char>,
    value: Option<String>,
) -> Seq<Seq<(Seq<char>, Tone)>> {
    match value {
        Some(n) => ls.push(seq![seg(label, Tone::Label), seg(n@, Tone::Plain)]),
        None => ls,
    }
}

/// `ls` with a labelled line for the score text `value` when it is given.
#[verifier::opaque]
pub open spec fn with_score(
    ls: Seq<Seq<(Seq<char>, Tone)>>,
    label: Seq<char>,
    value: Option<&str>,
) -> Seq<Seq<(Seq<char>, Tone)>> {
    match value {
        Some(n) => ls.push(seq![seg(label, Tone::Label), seg(n@, Tone::Plain)]),
        None => ls,
    }
}

/// `ls` with a blank line and the publication date when it is present.
#[verifier::opaque]
pub open spec fn with_published(ls: Seq<Seq<(Seq<char>, Tone)>>, value: Option<String>) -> Seq<
    Seq<(Seq<char>, Tone)>,
> {
    match value {
        Some(n) => ls.push(seq![]).push(seq![seg("Published: "@, Tone::Gray), seg(n@, Tone::Plain)]),
        None => ls,
    }
}

/// `ls` with a blank line, a heading and the text of `value` when it is
/// present.
#[verifier::opaque]
pub open spec fn with_paragraph(
    ls: Seq<Seq<(Seq<char>, Tone)>>,
    heading: Seq<char>,
    value: Option<String>,
) -> Seq<Seq<(Seq<char>, Tone)>> {
    match value {
        Some(n) => ls.push(seq![]).push(seq![seg(heading, Tone::Label)]).push(
            seq![seg(n@, Tone::Plain)],
        ),
        None => ls,
    }
}

/// The vulnerability panel of a record: its name, severity (or `?`)
/// coloured by its class, the scores that are given, the component's name
/// and version, the remediation status, the publication date, the
/// description and the remediation comment, each when present.
pub open spec fn vulnerability_lines(
    v: Vulnerability,
    d: crate::api::types::VulnerabilityDetail,
    cvss3: Option<&str>,
    cvss2: Option<&str>,
) -> Seq<Seq<(Seq<char>, Tone)>> {
    let sev = or_default(d.severity, "?"@);
    let head = seq![
        seq![seg("CVE:       "@, Tone::Label), seg(d.vulnerability_name@, Tone::WhiteBold)],
        seq![seg("Severity:  "@, Tone::Label), seg(sev, Tone::RatedBold(severity_of(sev)))],
    ];
    let scored = with_score(with_score(head, "CVSS3:     "@, cvss3), "CVSS2:     "@, cvss2);
    let named = with_field(
        with_field(scored, "Component: "@, v.component_name),
        "Version:   "@,
        v.component_version_name,
    );
    let fixed = with_field(named, "Remediation: "@, d.remediation_status);
    with_paragraph(
        with_paragraph(with_published(fixed, d.published_date), "Description:"@, d.description),
        "Comment:"@,
        d.remediation_comment,
    )
}

/// The vulnerability panel: the selected entry's vulnerability record
/// (see `vulnerability_lines`), a note when it has none, or a prompt to
/// select one. `cvss3` and `cvss2` are the selected entry's scores as
/// written for display, given exactly when it has them, so a CVSS line
/// appears exactly for each score the entry carries.
pub open spec fn vulnerability_detail_spec(
    app: App,
    cvss3: Option<&str>,
    cvss2: Option<&str>,
) -> Seq<Seq<(Seq<char>, Tone)>> {
    let items = app.vulnerabilities.items@;
    let sel = app.vulnerabilities.selected as int;
    if sel < items.len() {
        let v = items[sel];
        match v.vulnerability_with_remediation {
            Some(d) => vulnerability_lines(v, d, cvss3, cvss2),
            None => seq![seq![seg("No detail available"@, Tone::Muted)]],
        }
    } else {
        seq![seq![seg("Select a vulnerability"@, Tone::Muted)]]
    }
}

fn push_field(lines: &mut Vec<Vec<Piece>>, label: &str, value: &Option<String>)
    ensures
        lines_view(*final(lines)) == with_field(lines_view(*old(lines)), label@, *value),
{
    reveal(with_field);
    if let Some(n) = value {
        push_line(lines, line2(piece(label, Tone::Label), owned(n.clone(), Tone::Plain)));
    }
}

fn push_score(lines: &mut Vec<Vec<Piece>>, label: &str, value: Option<&str>)
    ensures
        lines_view(*final(lines)) == with_score(lines_view(*old(lines)), label@, value),
{
    reveal(with_score);
    if let Some(n) = value {
        push_line(lines, line2(piece(label, Tone::Label), piece(n, Tone::Plain)));
    }
}

fn push_published(lines: &mut Vec<Vec<Piece>>, value: &Option<String>)
    ensures
        lines_view(*final(lines)) == with_published(lines_view(*old(lines)), *value),
{
    reveal(with_published);
    if let Some(n) = value {
        push_blank(lines);
        push_line(lines, line2(piece("Published: ", Tone::Gray), owned(n.clone(), Tone::Plain)));
    }
}

fn push_paragraph(lines: &mut Vec<Vec<Piece>>, heading: &str, value: &Option<String>)
    ensures
        lines_view(*final(lines)) == with_paragraph(lines_view(*old(lines)), heading@, *value),
{
    reveal(with_paragraph);
    if let Some(n) = value {
        push_blank(lines);
        push_line(lines, line1(piece(heading, Tone::Label)));
        push_line(lines, line1(owned(n.clone(), Tone::Plain)));
    }
}

fn vulnerability_lines_exec(
    v: &Vulnerability,
    d: &crate::api::types::VulnerabilityDetail,
    cvss3: Option<&str>,
    cvss2: Option<&str>,
) -> (r: Vec<Vec<Piece>>)
    ensures
        lines_view(r) == vulnerability_lines(*v, *d, cvss3, cvss2),
{
    let mut lines: Vec<Vec<Piece>> = Vec::new();
    let sev = text_or(&d.severity, "?");
    let class = severity_level(sev);
    push_line(
        &mut lines,
        line2(piece("CVE:       ", Tone::Label), owned(d.vulnerability_name.clone(), Tone::WhiteBold)),
    );
    push_line(&mut lines, line2(piece("Severity:  ", Tone::Label), piece(sev, Tone::RatedBold(class))));
    assert(lines_view(lines) =~= seq![
        seq![seg("CVE:       "@, Tone::Label), seg(d.vulnerability_name@, Tone::WhiteBold)],
        seq![seg("Severity:  "@, Tone::Label), seg(sev@, Tone::RatedBold(severity_of(sev@)))],
    ]);
    push_score(&mut lines, "CVSS3:     ", cvss3);
    push_score(&mut lines, "CVSS2:     ", cvss2);
    push_field(&mut lines, "Component: ", &v.component_name);
    push_field(&mut lines, "Version:   ", &v.component_version_name);
    push_field(&mut lines, "Remediation: ", &d.remediation_status);
    push_published(&mut lines, &d.published_date);
    push_paragraph(&mut lines, "Description:", &d.description);
    push_paragraph(&mut lines, "Comment:", &d.remediation_comment);
    lines
}

/// The vulnerability panel: the selected entry's vulnerability record
/// (see `vulnerability_lines`), a note when it has none, or a prompt to
/// select one. `cvss3` and `cvss2` are the selected entry's scores as
/// written for display, given exactly when it has them, so a CVSS line
/// appears exactly for each score the entry carries.
pub fn vulnerability_detail(app: &App, cvss3: Option<&str>, cvss2: Option<&str>) -> (r: Vec<
    Vec<Piece>,
>)
    requires
        app.vulnerabilities.selected < app.vulnerabilities.items@.len() ==> scores_given(
            app.vulnerabilities.items@[app.vulnerabilities.selected as int],
            cvss3,
            cvss2,
        ),
    ensures
        lines_view(r) == vulnerability_detail_spec(*app, cvss3, cvss2),
{
    if let Some(v) = app.vulnerabilities.selected_item() {
        if let Some(d) = &v.vulnerability_with_remediation {
            vulnerability_lines_exec(v, d, cvss3, cvss2)
        } else {
            let mut lines: Vec<Vec<Piece>> = Vec::new();
            push_line(&mut lines, line1(piece("No detail available", Tone::Muted)));
            assert(lines_view(lines) =~= vulnerability_detail_spec(*app, cvss3, cvss2));
            lines
        }
    } else {
        let mut lines: Vec<Vec<Piece>> = Vec::new();
        push_line(&mut lines, line1(piece("Select a vulnerability", Tone::Muted)));
        assert(lines_view(lines) =~= vulnerability_detail_spec(*app, cvss3, cvss2));
        lines
    }
}

/// The row of the list at which the selection is highlighted: the first
/// row listing the selected position, if any.
pub fn highlighted_row<T>(rows: &Vec<(usize, &T)>, selected: usize) -> (r: Option<usize>)
    ensures
        r is None ==> !crate::app::row_positions(rows@).contains(selected),
        r matches Some(p) ==> p < rows@.len() && rows@[p as int].0 == selected && forall|q: int|
            0 <= q < p ==> rows@[q].0 != selected,
{
    let pos = crate::app::positions(rows);
    let r = crate::selection::find_row(&pos, selected);
    proof {
        if let Some(p) = r {
            assert(pos@[p as int] == rows@[p as int].0);
            assert forall|q: int| 0 <= q < p implies rows@[q].0 != selected by {
                assert(pos@[q] == rows@[q].0);
            }
        }
    }
    r
}

// ---------------------------------------------------------------------------
// Filter popup
// ---------------------------------------------------------------------------

/// The values a criterion of the filter accepts.
pub open spec fn criterion(f: ComponentFilter, field: FilterField) -> Seq<Seq<char>> {
    match field {
        FilterField::PolicyStatus => texts(f.policy_statuses@),
        FilterField::ReviewStatus => texts(f.review_statuses@),
        FilterField::ApprovalStatus => texts(f.approval_statuses@),
        FilterField::PolicyRuleName => texts(f.rule_ids@),
    }
}

/// How a field's options are named in the popup: the status values
/// themselves, or the display names of the offered policy rules.
pub open spec fn option_labels(app: App, field: FilterField) -> Seq<Seq<char>> {
    match field {
        FilterField::PolicyRuleName => app.available_policy_rules@.map_values(
            |r: (String, String)| r.0@,
        ),
        _ => option_values(app, field),
    }
}

/// The label of a filter field.
pub open spec fn field_label(field: FilterField) -> Seq<char> {
    match field {
        FilterField::PolicyStatus => "Policy Status"@,
        FilterField::ReviewStatus => "Review Status"@,
        FilterField::ApprovalStatus => "Approval Status"@,
        FilterField::PolicyRuleName => "Policy Rule Name"@,
    }
}

/// The popup line of the field at row `r`: a marker and the label,
/// highlighted when the field is focused, and how many values its
/// criterion accepts.
pub open spec fn field_line(app: App, r: int) -> Seq<(Seq<char>, Tone)> {
    let f = field_at(r);
    let focused = field_at(app.filter_popup.focused_field as int) == f;
    seq![
        seg(if focused { "> "@ } else { "  "@ }, Tone::Accent),
        seg(field_label(f), if focused { Tone::AccentBold } else { Tone::Label }),
        seg(" ("@ + decimal(criterion(app.filter, f).len()) + ")"@, Tone::Muted),
    ]
}

/// The popup line of option `i` of the focused field: a check box telling
/// whether the criterion accepts the option's value, and the option's
/// name, highlighted when it is the focused option.
pub open spec fn option_line(app: App, i: int) -> Seq<(Seq<char>, Tone)> {
    let f = field_at(app.filter_popup.focused_field as int);
    seq![
        seg(
            if criterion(app.filter, f).contains(option_values(app, f)[i]) {
                "[x] "@
            } else {
                "[ ] "@
            },
            Tone::Plain,
        ),
        seg(
            option_labels(app, f)[i],
            if i == app.filter_popup.focused_option { Tone::AccentBold } else { Tone::Plain },
        ),
    ]
}

/// The key hint at the foot of the filter popup.
pub open spec fn popup_hint() -> Seq<char> {
    "Tab: field  j/k: option  Space: toggle  Enter/Esc: close"@
}

/// The filter popup: one line per field, a blank line, one line per option
/// of the focused field, a blank line and the key hint.
pub open spec fn filter_popup_spec(app: App) -> Seq<Seq<(Seq<char>, Tone)>> {
    let f = field_at(app.filter_popup.focused_field as int);
    Seq::new(4, |r: int| field_line(app, r)) + seq![seq![]] + Seq::new(
        option_values(app, f).len(),
        |i: int| option_line(app, i),
    ) + seq![seq![], seq![seg(popup_hint(), Tone::Muted)]]
}

fn criterion_exec(filter: &ComponentFilter, field: FilterField) -> (r: &Vec<String>)
    ensures
        texts(r@) == criterion(*filter, field),
{
    match field {
        FilterField::PolicyStatus => &filter.policy_statuses,
        FilterField::ReviewStatus => &filter.review_statuses,
        FilterField::ApprovalStatus => &filter.approval_statuses,
        FilterField::PolicyRuleName => &filter.rule_ids,
    }
}

fn set_has(set: &Vec<String>, v: &str) -> (b: bool)
    ensures
        b == texts(set@).contains(v@),
{
    let mut k: usize = 0;
    while k < set.len()
        invariant
            k <= set@.len(),
            forall|j: int| 0 <= j < k ==> set@[j]@ != v@,
        decreases set@.len() - k,
    {
        if str_eq(set[k].as_str(), v) {
            assert(texts(set@)[k as int] == v@);
            return true;
        }
        k = k + 1;
    }
    assert forall|j: int| 0 <= j < texts(set@).len() implies texts(set@)[j] != v@ by {
        assert(texts(set@)[j] == set@[j]@);
    }
    false
}

fn field_line_exec(app: &App, r: usize) -> (l: Vec<Piece>)
    requires
        r < 4,
    ensures
        line_view(l) == field_line(*app, r as int),
{
    let f = if r == 0 {
        FilterField::PolicyStatus
    } else if r == 1 {
        FilterField::ReviewStatus
    } else if r == 2 {
        FilterField::ApprovalStatus
    } else {
        FilterField::PolicyRuleName
    };
    assert(f == field_at(r as int));
    let focused = app.filter_popup.current_field() == f;
    let set = criterion_exec(&app.filter, f);
    let count = decimal_string(set.len() as u64);
    let a = concat(" (", count.as_str());
    let b = concat(a.as_str(), ")");
    let ghost (v1, v2, v3) = (
        seg(if focused { "> "@ } else { "  "@ }, Tone::Accent),
        seg(field_label(f), if focused { Tone::AccentBold } else { Tone::Label }),
        seg(b@, Tone::Muted),
    );
    let mut l: Vec<Piece> = Vec::new();
    l.push(piece(if focused { "> " } else { "  " }, Tone::Accent));
    l.push(piece(f.label(), if focused { Tone::AccentBold } else { Tone::Label }));
    l.push(owned(b, Tone::Muted));
    assert(line_view(l) =~= seq![v1, v2, v3]);
    l
}

fn option_line_exec(app: &App, i: usize, value: &str, label: &str) -> (l: Vec<Piece>)
    requires
        i < option_values(*app, field_at(app.filter_popup.focused_field as int)).len(),
        value@ == option_values(*app, field_at(app.filter_popup.focused_field as int))[i as int],
        label@ == option_labels(*app, field_at(app.filter_popup.focused_field as int))[i as int],
    ensures
        line_view(l) == option_line(*app, i as int),
{
    let f = app.filter_popup.current_field();
    let set = criterion_exec(&app.filter, f);
    let checked = set_has(set, value);
    let tone = if i == app.filter_popup.focused_option {
        Tone::AccentBold
    } else {
        Tone::Plain
    };
    line2(piece(if checked { "[x] " } else { "[ ] " }, Tone::Plain), piece(label, tone))
}

/// The filter popup: one line per field, a blank line, one line per option
/// of the focused field, a blank line and the key hint.
pub fn filter_popup_lines(app: &App) -> (r: Vec<Vec<Piece>>)
    ensures
        lines_view(r) == filter_popup_spec(*app),
{
    let ghost fs = Seq::new(4, |r: int| field_line(*app, r));
    let mut lines: Vec<Vec<Piece>> = Vec::new();
    let mut r: usize = 0;
    while r < 4
        invariant
            r <= 4,
            fs == Seq::new(4, |r: int| field_line(*app, r)),
            lines_view(lines) == fs.take(r as int),
        decreases 4 - r,
    {
        let l = field_line_exec(app, r);
        push_line(&mut lines, l);
        r = r + 1;
        assert(lines_view(lines) =~= fs.take(r as int));
    }
    assert(fs.take(4) =~= fs);
    push_blank(&mut lines);
    let ghost head = lines_view(lines);
    let f = app.filter_popup.current_field();
    let ghost n = option_values(*app, f).len();
    let ghost os = Seq::new(n, |i: int| option_line(*app, i));
    match f {
        FilterField::PolicyRuleName => {
            let rules = &app.available_policy_rules;
            let mut i: usize = 0;
            while i < rules.len()
                invariant
                    i <= rules@.len(),
                    n == rules@.len(),
                    f == FilterField::PolicyRuleName,
                    f == field_at(app.filter_popup.focused_field as int),
                    os == Seq::new(n, |i: int| option_line(*app, i)),
                    rules@ == app.available_policy_rules@,
                    lines_view(lines) == head + os.take(i as int),
                decreases rules@.len() - i,
            {
                let l = option_line_exec(app, i, rules[i].1.as_str(), rules[i].0.as_str());
                push_line(&mut lines, l);
                i = i + 1;
                assert(lines_view(lines) =~= head + os.take(i as int));
            }
            assert(os.take(n as int) =~= os);
        },
        _ => {
            let opts = f.options();
            assert(opts@.map_values(|o: &str| o@) =~= option_values(*app, f));
            let mut i: usize = 0;
            while i < opts.len()
                invariant
                    i <= opts@.len(),
                    n == opts@.len(),
                    f != FilterField::PolicyRuleName,
                    f == field_at(app.filter_popup.focused_field as int),
                    opts@.map_values(|o: &str| o@) == option_values(*app, f),
                    os == Seq::new(n, |i: int| option_line(*app, i)),
                    lines_view(lines) == head + os.take(i as int),
                decreases opts@.len() - i,
            {
                assert(opts@.map_values(|o: &str| o@)[i as int] == opts@[i as int]@);
                let l = option_line_exec(app, i, opts[i], opts[i]);
                push_line(&mut lines, l);
                i = i + 1;
                assert(lines_view(lines) =~= head + os.take(i as int));
            }
            assert(os.take(n as int) =~= os);
        },
    }
    push_blank(&mut lines);
    push_line(&mut lines, line1(piece("Tab: field  j/k: option  Space: toggle  Enter/Esc: close", Tone::Muted)));
    assert(lines_view(lines) =~= filter_popup_spec(*app));
    lines
}

} // verus!
