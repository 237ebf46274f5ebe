//! Output settings and the text that commands print.
use vstd::prelude::*;
use vstd::string::*;
use crate::link::opt_view;
use crate::model::{nanos_of, status_name, Issue, IssueStatus, Timestamp};
use crate::text::{chars_of, concat, decimal, decimal_string, push_char, string_of};

verus! {

#[derive(Debug, Clone, Copy, PartialEq, Eq, Structural)]
pub enum OutputFormat {
    Table,
    Json,
    Compact,
}

/// How results are printed; fixed once at startup and passed along.
#[derive(Debug, Clone, Copy, PartialEq, Eq, Structural)]
pub struct OutputSettings {
    pub format: OutputFormat,
    /// Success messages are left out.
    pub quiet: bool,
}

impl OutputSettings {
    /// Tables, with success messages.
    pub fn new() -> (r: OutputSettings)
        ensures
            r.format == OutputFormat::Table,
            !r.quiet,
    {
        OutputSettings { format: OutputFormat::Table, quiet: false }
    }
}

pub fn set_format(settings: &mut OutputSettings, format: OutputFormat)
    ensures
        final(settings).format == format,
        final(settings).quiet == old(settings).quiet,
{
    settings.format = format;
}

pub fn get_format(settings: &OutputSettings) -> (r: OutputFormat)
    ensures
        r == settings.format,
{
    settings.format
}

pub fn set_quiet(settings: &mut OutputSettings, quiet: bool)
    ensures
        final(settings).quiet == quiet,
        final(settings).format == old(settings).format,
{
    settings.quiet = quiet;
}

pub fn is_quiet(settings: &OutputSettings) -> (r: bool)
    ensures
        r == settings.quiet,
{
    settings.quiet
}

pub fn is_json_output(settings: &OutputSettings) -> (r: bool)
    ensures
        r == (settings.format == OutputFormat::Json),
{
    settings.format == OutputFormat::Json
}

#[derive(Debug, Clone, Copy, PartialEq, Eq, Structural)]
pub enum Color {
    Plain,
    Green,
    Red,
    Yellow,
    Cyan,
    Blue,
    Dimmed,
}

/// A text to be shown in a color.
#[derive(Debug, Clone)]
pub struct StyledText {
    pub text: String,
    pub color: Color,
}

/// Resolved green, unresolved red, ignored yellow, reprocessing cyan.
pub open spec fn status_color(s: IssueStatus) -> Color {
    match s {
        IssueStatus::Resolved => Color::Green,
        IssueStatus::Unresolved => Color::Red,
        IssueStatus::Ignored => Color::Yellow,
        IssueStatus::Reprocessing => Color::Cyan,
    }
}

pub open spec fn status_title(s: IssueStatus) -> Seq<char> {
    match s {
        IssueStatus::Resolved => "Resolved"@,
        IssueStatus::Unresolved => "Unresolved"@,
        IssueStatus::Ignored => "Ignored"@,
        IssueStatus::Reprocessing => "Reprocessing"@,
    }
}

fn color_of(status: &IssueStatus) -> (r: Color)
    ensures
        r == status_color(*status),
{
    match status {
        IssueStatus::Resolved => Color::Green,
        IssueStatus::Unresolved => Color::Red,
        IssueStatus::Ignored => Color::Yellow,
        IssueStatus::Reprocessing => Color::Cyan,
    }
}

/// The status capitalized, in its color, for an issue's detail view.
pub fn format_status(status: &IssueStatus) -> (r: StyledText)
    ensures
        r.text@ == status_title(*status),
        r.color == status_color(*status),
{
    let text = match status {
        IssueStatus::Resolved => "Resolved",
        IssueStatus::Unresolved => "Unresolved",
        IssueStatus::Ignored => "Ignored",
        IssueStatus::Reprocessing => "Reprocessing",
    };
    StyledText { text: String::from_str(text), color: color_of(status) }
}

/// The status in lower case, in its color, for a table row.
pub fn format_status_colored(status: &IssueStatus) -> (r: StyledText)
    ensures
        r.text@ == status_name(*status),
        r.color == status_color(*status),
{
    StyledText { text: String::from_str(status.as_str()), color: color_of(status) }
}

/// `s` when it has at most `max_len` characters, else its first
/// `max_len - 3` characters followed by `...`.
pub open spec fn truncated(s: Seq<char>, max_len: nat) -> Seq<char> {
    if s.len() <= max_len {
        s
    } else {
        s.subrange(0, max_len - 3) + "..."@
    }
}

pub fn truncate_string(s: &str, max_len: usize) -> (r: String)
    requires
        max_len >= 3 || s@.len() <= max_len,
    ensures
        r@ == truncated(s@, max_len as nat),
{
    let cs = chars_of(s);
    if cs.len() <= max_len {
        String::from_str(s)
    } else {
        let mut t = string_of(&cs, 0, max_len - 3);
        t.append("...");
        t
    }
}

/// `s` with a backslash before every double quote.
pub open spec fn escape_quotes(s: Seq<char>) -> Seq<char>
    decreases s.len(),
{
    if s.len() == 0 {
        Seq::empty()
    } else {
        escape_quotes(s.drop_last()) + if s.last() == '"' {
            seq!['\\', '"']
        } else {
            seq![s.last()]
        }
    }
}

fn escaped(s: &str) -> (r: String)
    ensures
        r@ == escape_quotes(s@),
{
    let cs = chars_of(s);
    let mut out = String::new();
    let mut i: usize = 0;
    while i < cs.len()
        invariant
            i <= cs@.len(),
            cs@ == s@,
            out@ == escape_quotes(cs@.subrange(0, i as int)),
        decreases cs@.len() - i,
    {
        assert(cs@.subrange(0, i + 1).drop_last() =~= cs@.subrange(0, i as int));
        if cs[i] == '"' {
            push_char(&mut out, '\\');
            push_char(&mut out, '"');
        } else {
            push_char(&mut out, cs[i]);
        }
        i = i + 1;
        assert(out@ =~= escape_quotes(cs@.subrange(0, i as int)));
    }
    assert(cs@.subrange(0, cs@.len() as int) =~= cs@);
    out
}

/// The line that a success message prints as: none in quiet mode,
/// `{"message": "<text>"}` for JSON output, else the text itself.
pub fn message_line(settings: &OutputSettings, message: &str) -> (r: Option<String>)
    ensures
        settings.quiet ==> r is None,
        !settings.quiet && settings.format == OutputFormat::Json ==> (r matches Some(t) && t@
            == "{\"message\": \""@ + escape_quotes(message@) + "\"}"@),
        !settings.quiet && settings.format != OutputFormat::Json ==> (r matches Some(t) && t@
            == message@),
{
    if settings.quiet {
        return None;
    }
    if is_json_output(settings) {
        let mut t = String::from_str("{\"message\": \"");
        let e = escaped(message);
        t.append(e.as_str());
        t.append("\"}");
        Some(t)
    } else {
        Some(String::from_str(message))
    }
}

/// `Issue <id> <outcome>.`
pub fn issue_message(short_id: &str, outcome: &str) -> (r: String)
    ensures
        r@ == "Issue "@ + short_id@ + " "@ + outcome@ + "."@,
{
    let mut t = concat("Issue ", short_id);
    t.append(" ");
    t.append(outcome);
    t.append(".");
    t
}

/// `<Verb> <count> issues.`
pub fn count_message(verb: &str, count: usize) -> (r: String)
    ensures
        r@ == verb@ + " "@ + decimal(count as u64) + " issues."@,
{
    let mut t = concat(verb, " ");
    t.append(decimal_string(count as u64).as_str());
    t.append(" issues.");
    t
}

/// What an ignore was made conditional on, for its message.
pub open spec fn ignore_detail(duration: Option<u64>, count: Option<u64>, until_escalating: bool) -> Seq<
    char,
> {
    if let Some(d) = duration {
        " for "@ + decimal(d) + " minutes"@
    } else if let Some(c) = count {
        " until "@ + decimal(c) + " more events"@
    } else if until_escalating {
        " until escalating"@
    } else {
        Seq::empty()
    }
}

pub fn ignore_suffix(duration: Option<u64>, count: Option<u64>, until_escalating: bool) -> (r: String)
    ensures
        r@ == ignore_detail(duration, count, until_escalating),
{
    if let Some(d) = duration {
        let mut t = concat(" for ", decimal_string(d).as_str());
        t.append(" minutes");
        t
    } else if let Some(c) = count {
        let mut t = concat(" until ", decimal_string(c).as_str());
        t.append(" more events");
        t
    } else if until_escalating {
        String::from_str(" until escalating")
    } else {
        String::new()
    }
}

/// `Merged <n> issue(s) into <short id>.`
pub fn merge_message(other_count: usize, short_id: &str) -> (r: String)
    ensures
        r@ == "Merged "@ + decimal(other_count as u64) + " issue(s) into "@ + short_id@ + "."@,
{
    let mut t = concat("Merged ", decimal_string(other_count as u64).as_str());
    t.append(" issue(s) into ");
    t.append(short_id);
    t.append(".");
    t
}

/// The question asked before a deletion.
pub fn delete_prompt(count: usize) -> (r: String)
    ensures
        r@ == "Are you sure you want to delete "@ + decimal(count as u64) + " issue(s)? [y/N]: "@,
{
    let mut t = concat("Are you sure you want to delete ", decimal_string(count as u64).as_str());
    t.append(" issue(s)? [y/N]: ");
    t
}

/// The calendar date `YYYY-MM-DD` (UTC) of an instant, if it is one that
/// the calendar can hold.
pub uninterp spec fn utc_date(secs: i64) -> Option<Seq<char>>;

/// Relies on `chrono::DateTime::from_timestamp` and its `format("%Y-%m-%d")`.
#[verifier::external_body]
fn date_text(secs: i64) -> (r: Option<String>)
    ensures
        match r {
            Some(t) => utc_date(secs) == Some(t@),
            None => utc_date(secs) is None,
        },
{
    let d = chrono::DateTime::from_timestamp(secs, 0)?;
    Some(d.format("%Y-%m-%d").to_string())
}

/// How long before `now` the instant `then` was, for a table row, counted
/// in whole seconds (rounded toward zero): under a minute, minutes, hours,
/// days up to a week, and after that the date.
pub open spec fn relative_time(now: Timestamp, then: Timestamp) -> Option<Seq<char>> {
    let ns = nanos_of(now) - nanos_of(then);
    let secs = ns / 1_000_000_000;
    if ns < 60_000_000_000 {
        Some("just now"@)
    } else if secs / 60 < 60 {
        Some(decimal((secs / 60) as u64) + " min ago"@)
    } else if secs / 3600 < 24 {
        Some(decimal((secs / 3600) as u64) + " hr ago"@)
    } else if secs / 86400 < 7 {
        Some(decimal((secs / 86400) as u64) + " days ago"@)
    } else {
        utc_date(then.secs)
    }
}

fn ago(n: u64, unit: &str) -> (r: String)
    ensures
        r@ == decimal(n) + unit@,
{
    concat(decimal_string(n).as_str(), unit)
}

/// `then` relative to `now`; `None` only for an instant outside the calendar.
pub fn format_relative_time(now: Timestamp, then: Timestamp) -> (r: Option<String>)
    ensures
        opt_view(r) == relative_time(now, then),
{
    let ns: i128 = ((now.secs as i128) * 1_000_000_000 + (now.nanos as i128)) - ((then.secs as i128)
        * 1_000_000_000 + (then.nanos as i128));
    assert(ns == nanos_of(now) - nanos_of(then));
    if ns < 60_000_000_000 {
        return Some(String::from_str("just now"));
    }
    let secs: i128 = ns / 1_000_000_000;
    if secs / 60 < 60 {
        Some(ago((secs / 60) as u64, " min ago"))
    } else if secs / 3600 < 24 {
        Some(ago((secs / 3600) as u64, " hr ago"))
    } else if secs / 86400 < 7 {
        Some(ago((secs / 86400) as u64, " days ago"))
    } else {
        date_text(then.secs)
    }
}

/// The cells of an issue's row in a listing table.
#[derive(Debug, Clone)]
pub struct IssueRow {
    pub id: String,
    pub short_id: String,
    /// The title cut to fifty characters.
    pub title: String,
    pub status: StyledText,
    pub events: String,
    /// How long ago the issue was last seen; `None` for an instant outside
    /// the calendar.
    pub last_seen: Option<String>,
}

impl IssueRow {
    /// The row of `issue` as seen at `now`.
    pub fn from_issue(issue: &Issue, now: Timestamp) -> (r: IssueRow)
        ensures
            r.id@ == issue.id@,
            r.short_id@ == issue.short_id@,
            r.title@ == truncated(issue.title@, 50),
            r.status.text@ == status_name(issue.status),
            r.status.color == status_color(issue.status),
            r.events@ == issue.count@,
            opt_view(r.last_seen) == relative_time(now, issue.last_seen),
    {
        IssueRow {
            id: issue.id.clone(),
            short_id: issue.short_id.clone(),
            title: truncate_string(issue.title.as_str(), 50),
            status: format_status_colored(&issue.status),
            events: issue.count.clone(),
            last_seen: format_relative_time(now, issue.last_seen),
        }
    }
}

/// The date and time `YYYY-MM-DD HH:MM:SS UTC` of an instant, if it is one
/// that the calendar can hold.
pub uninterp spec fn utc_datetime(secs: i64, nanos: u32) -> Option<Seq<char>>;

/// Relies on `chrono::DateTime::from_timestamp` and its
/// `format("%Y-%m-%d %H:%M:%S UTC")`.
#[verifier::external_body]
fn datetime_text(secs: i64, nanos: u32) -> (r: Option<String>)
    ensures
        match r {
            Some(t) => utc_datetime(secs, nanos) == Some(t@),
            None => utc_datetime(secs, nanos) is None,
        },
{
    let d = chrono::DateTime::from_timestamp(secs, nanos)?;
    Some(d.format("%Y-%m-%d %H:%M:%S UTC").to_string())
}

#[derive(Debug, Clone, Copy, PartialEq, Eq, Structural)]
pub enum LineKind {
    /// An empty line.
    Blank,
    /// `<label>: <text>`, the title of the view.
    Heading,
    /// A line of `=` under the title.
    Rule,
    /// `<label>` padded to twelve columns, then `<text>`.
    Field,
}

/// One line of an issue's detail view.
#[derive(Debug, Clone)]
pub struct DetailLine {
    pub kind: LineKind,
    pub label: String,
    pub text: String,
    pub color: Color,
}

pub open spec fn line_view(l: DetailLine) -> (LineKind, Seq<char>, Seq<char>, Color) {
    (l.kind, l.label@, l.text@, l.color)
}

pub open spec fn blank_view() -> (LineKind, Seq<char>, Seq<char>, Color) {
    (LineKind::Blank, Seq::empty(), Seq::empty(), Color::Plain)
}

pub open spec fn field_view(label: Seq<char>, text: Seq<char>, color: Color) -> (
    LineKind,
    Seq<char>,
    Seq<char>,
    Color,
) {
    (LineKind::Field, label, text, color)
}

pub open spec fn rule_text() -> Seq<char> {
    "================================================================================"@
}

pub open spec fn stamp(t: Timestamp) -> Seq<char> {
    match utc_datetime(t.secs, t.nanos) {
        Some(x) => x,
        None => Seq::empty(),
    }
}

/// Who the issue is assigned to: the name and the email (else the kind of
/// assignee), or a dimmed `Unassigned`.
pub open spec fn assignee_view(issue: Issue) -> (Seq<char>, Color) {
    match issue.assigned_to {
        Some(a) => (
            a.name@ + " ("@ + match a.email {
                Some(e) => e@,
                None => a.actor_type@,
            } + ")"@,
            Color::Plain,
        ),
        None => ("Unassigned"@, Color::Dimmed),
    }
}

/// The lines of an issue's detail view, in order; a stamp outside the
/// calendar is left empty.
pub open spec fn detail_view(issue: Issue) -> Seq<(LineKind, Seq<char>, Seq<char>, Color)> {
    seq![
        blank_view(),
        (LineKind::Heading, "Issue"@, issue.short_id@, Color::Cyan),
        (LineKind::Rule, Seq::empty(), rule_text(), Color::Plain),
        field_view("Title:"@, issue.title@, Color::Plain),
        field_view("Status:"@, status_title(issue.status), status_color(issue.status)),
        field_view("Level:"@, issue.level@, Color::Plain),
        field_view("Project:"@, issue.project.name@ + " ("@ + issue.project.slug@ + ")"@, Color::Plain),
        field_view("First Seen:"@, stamp(issue.first_seen), Color::Plain),
        field_view("Last Seen:"@, stamp(issue.last_seen), Color::Plain),
        blank_view(),
        field_view(
            "Events:"@,
            issue.count@ + " total ("@ + decimal(issue.user_count) + " users affected)"@,
            Color::Plain,
        ),
        blank_view(),
        field_view("Assigned:"@, assignee_view(issue).0, assignee_view(issue).1),
    ] + match issue.culprit {
        Some(c) => seq![field_view("Culprit:"@, c@, Color::Plain)],
        None => Seq::empty(),
    } + seq![blank_view(), field_view("Link:"@, issue.permalink@, Color::Blue), blank_view()]
}

pub open spec fn lines_view(v: Seq<DetailLine>) -> Seq<(LineKind, Seq<char>, Seq<char>, Color)> {
    v.map_values(|l: DetailLine| line_view(l))
}

fn push_line(lines: &mut Vec<DetailLine>, kind: LineKind, label: &str, text: String, color: Color)
    ensures
        lines_view(final(lines)@) == lines_view(old(lines)@).push((kind, label@, text@, color)),
{
    lines.push(DetailLine { kind, label: String::from_str(label), text, color });
    assert(lines_view(lines@) =~= lines_view(old(lines)@).push((kind, label@, text@, color)));
}

fn stamp_text(t: Timestamp) -> (r: String)
    ensures
        r@ == stamp(t),
{
    match datetime_text(t.secs, t.nanos) {
        Some(x) => x,
        None => String::new(),
    }
}

/// The detail view of `issue`, line by line.
pub fn issue_detail(issue: &Issue) -> (r: Vec<DetailLine>)
    ensures
        lines_view(r@) == detail_view(*issue),
{
    let mut lines: Vec<DetailLine> = Vec::new();
    assert(lines_view(lines@) =~= Seq::empty());
    proof {
        reveal_strlit("");
    }
    push_line(&mut lines, LineKind::Blank, "", String::new(), Color::Plain);
    push_line(&mut lines, LineKind::Heading, "Issue", issue.short_id.clone(), Color::Cyan);
    push_line(
        &mut lines,
        LineKind::Rule,
        "",
        String::from_str("================================================================================"),
        Color::Plain,
    );
    push_line(&mut lines, LineKind::Field, "Title:", issue.title.clone(), Color::Plain);
    let st = format_status(&issue.status);
    push_line(&mut lines, LineKind::Field, "Status:", st.text, st.color);
    push_line(&mut lines, LineKind::Field, "Level:", issue.level.clone(), Color::Plain);
    let mut project = concat(issue.project.name.as_str(), " (");
    project.append(issue.project.slug.as_str());
    project.append(")");
    push_line(&mut lines, LineKind::Field, "Project:", project, Color::Plain);
    push_line(&mut lines, LineKind::Field, "First Seen:", stamp_text(issue.first_seen), Color::Plain);
    push_line(&mut lines, LineKind::Field, "Last Seen:", stamp_text(issue.last_seen), Color::Plain);
    push_line(&mut lines, LineKind::Blank, "", String::new(), Color::Plain);
    let mut events = concat(issue.count.as_str(), " total (");
    events.append(decimal_string(issue.user_count).as_str());
    events.append(" users affected)");
    push_line(&mut lines, LineKind::Field, "Events:", events, Color::Plain);
    push_line(&mut lines, LineKind::Blank, "", String::new(), Color::Plain);
    match &issue.assigned_to {
        Some(a) => {
            let mut who = concat(a.name.as_str(), " (");
            match &a.email {
                Some(e) => who.append(e.as_str()),
                None => who.append(a.actor_type.as_str()),
            }
            who.append(")");
            push_line(&mut lines, LineKind::Field, "Assigned:", who, Color::Plain);
        },
        None => push_line(
            &mut lines,
            LineKind::Field,
            "Assigned:",
            String::from_str("Unassigned"),
            Color::Dimmed,
        ),
    }
    let ghost before_culprit = lines_view(lines@);
    assert(before_culprit.len() == 13);
    assert(before_culprit[0] == detail_view(*issue)[0]);
    assert(before_culprit[1] == detail_view(*issue)[1]);
    assert(before_culprit[2] == detail_view(*issue)[2]);
    assert(before_culprit[3] == detail_view(*issue)[3]);
    assert(before_culprit[4] == detail_view(*issue)[4]);
    assert(before_culprit[5] == detail_view(*issue)[5]);
    assert(before_culprit[6] == detail_view(*issue)[6]);
    assert(before_culprit[7] == detail_view(*issue)[7]);
    assert(before_culprit[8] == detail_view(*issue)[8]);
    assert(before_culprit[9] == detail_view(*issue)[9]);
    assert(before_culprit[10] == detail_view(*issue)[10]);
    assert(before_culprit[11] == detail_view(*issue)[11]);
    assert(before_culprit[12] == detail_view(*issue)[12]);
    assert(before_culprit =~= detail_view(*issue).subrange(0, 13));
    if let Some(c) = &issue.culprit {
        push_line(&mut lines, LineKind::Field, "Culprit:", c.clone(), Color::Plain);
    }
    push_line(&mut lines, LineKind::Blank, "", String::new(), Color::Plain);
    push_line(&mut lines, LineKind::Field, "Link:", issue.permalink.clone(), Color::Blue);
    push_line(&mut lines, LineKind::Blank, "", String::new(), Color::Plain);
    assert(lines_view(lines@) =~= detail_view(*issue));
    lines
}

} // verus!
