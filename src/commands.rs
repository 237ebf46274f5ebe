//! What each `issues` command sends, and what it reports afterwards.
use vstd::prelude::*;
use vstd::string::*;
use crate::client::{body_of, issue_path, issues_path, repeated, string_views, HttpRequest, Method, SentryClient};
use crate::error::SentryCliError;
use crate::link::opt_view;
use crate::model::{IssueStatus, IssueUpdate, ListIssuesParams, StatusDetails};
use crate::text::{
    chars_of, eq_ignore_ascii_case, find_char, find_from, slice_chars, string_of, trim,
    trim_bounds,
};

verus! {

/// The options of `issues list`, as given on the command line.
#[derive(Debug, Clone)]
pub struct ListOptions {
    /// Project slugs separated by commas.
    pub project: Option<String>,
    pub status: Option<String>,
    pub query: Option<String>,
    pub sort: String,
    pub limit: u32,
    /// Gather every page rather than the first.
    pub all: bool,
}

/// A parsed `issues` subcommand.
#[derive(Debug, Clone)]
pub enum IssuesCommands {
    List {
        project: Option<String>,
        status: Option<String>,
        query: Option<String>,
        sort: String,
        limit: u32,
        all: bool,
    },
    View { issue_id: String },
    Resolve { issue_ids: Vec<String>, in_release: Option<String>, in_next_release: bool },
    Unresolve { issue_ids: Vec<String> },
    Assign { issue_ids: Vec<String>, to: Option<String>, unassign: bool },
    Ignore {
        issue_ids: Vec<String>,
        duration: Option<u64>,
        count: Option<u64>,
        until_escalating: bool,
    },
    Delete { issue_ids: Vec<String>, confirm: bool },
    Merge { primary_id: String, other_ids: Vec<String> },
}

/// A parsed `config` subcommand.
#[derive(Debug, Clone)]
pub enum ConfigCommands {
    Init,
    Show,
    SetValue { key: String, value: String },
}

/// `r` is the one request that applies `u` to `ids`: the single-issue
/// endpoint for exactly one id, the bulk endpoint with one `id` parameter per
/// id for more.
pub open spec fn sends_update(
    client: SentryClient,
    r: Result<HttpRequest, SentryCliError>,
    ids: Seq<String>,
    u: IssueUpdate,
) -> bool {
    if ids.len() == 1 {
        client.sends(r, Method::Put, issue_path(client.org_slug@, ids[0]@), Seq::empty(), body_of(u))
    } else {
        client.sends(
            r,
            Method::Put,
            issues_path(client.org_slug@),
            repeated("id"@, string_views(ids)),
            body_of(u),
        )
    }
}

fn send_update(client: &SentryClient, issue_ids: &Vec<String>, update: IssueUpdate) -> (r: Result<
    HttpRequest,
    SentryCliError,
>)
    ensures
        sends_update(*client, r, issue_ids@, update),
{
    if issue_ids.len() == 1 {
        client.update_issue(issue_ids[0].as_str(), update)
    } else {
        client.update_issues(issue_ids, update)
    }
}

pub open spec fn status_patch(s: IssueStatus, details: Option<StatusDetails>) -> IssueUpdate {
    IssueUpdate {
        status: Some(s),
        assigned_to: None,
        has_seen: None,
        is_bookmarked: None,
        merge: None,
        ignore_duration: None,
        ignore_count: None,
        ignore_window: None,
        status_details: details,
    }
}

/// The release details of a resolution, when any is asked for.
pub open spec fn resolve_details(in_release: Option<String>, in_next_release: bool) -> Option<
    StatusDetails,
> {
    if in_release is Some || in_next_release {
        Some(
            StatusDetails {
                in_release: in_release,
                in_next_release: if in_next_release {
                    Some(true)
                } else {
                    None
                },
                ignore_duration: None,
                ignore_count: None,
                ignore_until_escalating: None,
            },
        )
    } else {
        None
    }
}

/// The request of `issues resolve`.
pub fn resolve_issues(
    client: &SentryClient,
    issue_ids: &Vec<String>,
    in_release: Option<String>,
    in_next_release: bool,
) -> (r: Result<HttpRequest, SentryCliError>)
    ensures
        sends_update(
            *client,
            r,
            issue_ids@,
            status_patch(IssueStatus::Resolved, resolve_details(in_release, in_next_release)),
        ),
{
    let status_details = if in_release.is_some() || in_next_release {
        Some(
            StatusDetails {
                in_release,
                in_next_release: if in_next_release {
                    Some(true)
                } else {
                    None
                },
                ignore_duration: None,
                ignore_count: None,
                ignore_until_escalating: None,
            },
        )
    } else {
        None
    };
    let update = IssueUpdate {
        status: Some(IssueStatus::Resolved),
        assigned_to: None,
        has_seen: None,
        is_bookmarked: None,
        merge: None,
        ignore_duration: None,
        ignore_count: None,
        ignore_window: None,
        status_details,
    };
    send_update(client, issue_ids, update)
}

/// The request of `issues unresolve`.
pub fn unresolve_issues(client: &SentryClient, issue_ids: &Vec<String>) -> (r: Result<
    HttpRequest,
    SentryCliError,
>)
    ensures
        sends_update(*client, r, issue_ids@, status_patch(IssueStatus::Unresolved, None)),
{
    let update = IssueUpdate {
        status: Some(IssueStatus::Unresolved),
        assigned_to: None,
        has_seen: None,
        is_bookmarked: None,
        merge: None,
        ignore_duration: None,
        ignore_count: None,
        ignore_window: None,
        status_details: None,
    };
    send_update(client, issue_ids, update)
}

/// The request of `issues assign`: to `to`, or to nobody (the empty
/// identity) with `unassign`; a Validation error when neither is given.
pub fn assign_issues(
    client: &SentryClient,
    issue_ids: &Vec<String>,
    to: Option<String>,
    unassign: bool,
) -> (r: Result<HttpRequest, SentryCliError>)
    ensures
        !unassign && to is None ==> r matches Err(SentryCliError::Validation(_)),
        unassign || to is Some ==> exists|u: IssueUpdate|
            {
                &&& sends_update(*client, r, issue_ids@, u)
                &&& u.status is None && u.has_seen is None && u.is_bookmarked is None && u.merge is None
                &&& u.ignore_duration is None && u.ignore_count is None && u.ignore_window is None
                &&& u.status_details is None
                &&& opt_view(u.assigned_to) == Some(
                    if unassign {
                        Seq::<char>::empty()
                    } else {
                        to.unwrap()@
                    },
                )
            },
{
    let assigned_to = if unassign {
        String::new()
    } else {
        match to {
            Some(a) => a,
            None => {
                return Err(
                    SentryCliError::Validation(
                        String::from_str("Must specify --to <user> or --unassign"),
                    ),
                );
            },
        }
    };
    let update = IssueUpdate {
        status: None,
        assigned_to: Some(assigned_to),
        has_seen: None,
        is_bookmarked: None,
        merge: None,
        ignore_duration: None,
        ignore_count: None,
        ignore_window: None,
        status_details: None,
    };
    let ghost u = update;
    let r = send_update(client, issue_ids, update);
    assert(sends_update(*client, r, issue_ids@, u));
    r
}

/// The ignore conditions, when any is given.
pub open spec fn ignore_details(duration: Option<u64>, count: Option<u64>, until_escalating: bool) -> Option<
    StatusDetails,
> {
    if duration is Some || count is Some || until_escalating {
        Some(
            StatusDetails {
                in_release: None,
                in_next_release: None,
                ignore_duration: duration,
                ignore_count: count,
                ignore_until_escalating: if until_escalating {
                    Some(true)
                } else {
                    None
                },
            },
        )
    } else {
        None
    }
}

/// The request of `issues ignore`.
pub fn ignore_issues(
    client: &SentryClient,
    issue_ids: &Vec<String>,
    duration: Option<u64>,
    count: Option<u64>,
    until_escalating: bool,
) -> (r: Result<HttpRequest, SentryCliError>)
    ensures
        sends_update(
            *client,
            r,
            issue_ids@,
            status_patch(IssueStatus::Ignored, ignore_details(duration, count, until_escalating)),
        ),
{
    let status_details = if duration.is_some() || count.is_some() || until_escalating {
        Some(
            StatusDetails {
                in_release: None,
                in_next_release: None,
                ignore_duration: duration,
                ignore_count: count,
                ignore_until_escalating: if until_escalating {
                    Some(true)
                } else {
                    None
                },
            },
        )
    } else {
        None
    };
    let update = IssueUpdate {
        status: Some(IssueStatus::Ignored),
        assigned_to: None,
        has_seen: None,
        is_bookmarked: None,
        merge: None,
        ignore_duration: None,
        ignore_count: None,
        ignore_window: None,
        status_details,
    };
    send_update(client, issue_ids, update)
}

/// An answer that confirms: `y` in either case, blanks around it ignored.
pub open spec fn is_yes(answer: Seq<char>) -> bool {
    eq_ignore_ascii_case(trim(answer, false), seq!['y'])
}

pub fn confirms(answer: &str) -> (r: bool)
    ensures
        r == is_yes(answer@),
{
    let cs = chars_of(answer);
    let (a, b) = trim_bounds(&cs, false);
    let t = slice_chars(&cs, a, b);
    t.len() == 1 && (t[0] == 'y' || t[0] == 'Y')
}

/// `r` holds the request `method` on the resource, or a UrlParse error
/// exactly when its URL does not resolve.
pub open spec fn sends_some(
    client: SentryClient,
    r: Result<Option<HttpRequest>, SentryCliError>,
    method: Method,
    path: Seq<char>,
    ps: Seq<(Seq<char>, Seq<char>)>,
) -> bool {
    match r {
        Ok(Some(req)) => client.is_request(req, method, path, ps, None),
        Ok(None) => false,
        Err(e) => e is UrlParse && client.url_of(path, ps) is None,
    }
}

/// The request of `issues delete`, or `None` when it is not confirmed:
/// without `confirm`, only an `answer` that confirms lets it through.
pub fn delete_issues(
    client: &SentryClient,
    issue_ids: &Vec<String>,
    confirm: bool,
    answer: Option<&str>,
) -> (r: Result<Option<HttpRequest>, SentryCliError>)
    ensures
        !confirm && !(answer matches Some(a) && is_yes(a@)) ==> r matches Ok(None),
        confirm || (answer matches Some(a) && is_yes(a@)) ==> if issue_ids@.len() == 1 {
            sends_some(
                *client,
                r,
                Method::Delete,
                issue_path(client.org_slug@, issue_ids@[0]@),
                Seq::empty(),
            )
        } else {
            sends_some(
                *client,
                r,
                Method::Delete,
                issues_path(client.org_slug@),
                repeated("id"@, string_views(issue_ids@)),
            )
        },
{
    if !confirm {
        let yes = match answer {
            Some(a) => confirms(a),
            None => false,
        };
        if !yes {
            return Ok(None);
        }
    }
    let r = if issue_ids.len() == 1 {
        client.delete_issue(issue_ids[0].as_str())
    } else {
        client.delete_issues(issue_ids)
    };
    match r {
        Ok(req) => Ok(Some(req)),
        Err(e) => Err(e),
    }
}

/// The request of `issues merge`.
pub fn merge_issues(client: &SentryClient, primary_id: &str, other_ids: &Vec<String>) -> (r: Result<
    HttpRequest,
    SentryCliError,
>)
    ensures
        client.sends(
            r,
            Method::Put,
            issues_path(client.org_slug@),
            repeated("id"@, seq![primary_id@] + string_views(other_ids@)),
            body_of(crate::client::merge_patch()),
        ),
{
    client.merge_issues(primary_id, other_ids)
}

/// The request of `issues view`.
pub fn view_issue(client: &SentryClient, issue_id: &str) -> (r: Result<HttpRequest, SentryCliError>)
    ensures
        client.sends(r, Method::Get, issue_path(client.org_slug@, issue_id@), Seq::empty(), None),
{
    client.get_issue(issue_id)
}

/// The `,`-separated items of `s`, each trimmed.
pub open spec fn split_list(s: Seq<char>) -> Seq<Seq<char>>
    decreases s.len(),
{
    let end = find_char(s, ',');
    let head = trim(s.subrange(0, end as int), false);
    if end < s.len() {
        seq![head] + split_list(s.subrange(end as int + 1, s.len() as int))
    } else {
        seq![head]
    }
}

fn split_projects(s: &str) -> (r: Vec<String>)
    ensures
        string_views(r@) == split_list(s@),
{
    let cs = chars_of(s);
    let n = cs.len();
    let mut out: Vec<String> = Vec::new();
    let mut start: usize = 0;
    assert(cs@.subrange(0, n as int) =~= cs@);
    loop
        invariant
            start <= n == cs@.len(),
            cs@ == s@,
            split_list(s@) == string_views(out@) + split_list(cs@.subrange(start as int, n as int)),
        decreases n - start,
    {
        let ghost rest = cs@.subrange(start as int, n as int);
        let end = find_from(&cs, start, ',');
        let part = slice_chars(&cs, start, end);
        assert(part@ =~= rest.subrange(0, end - start));
        let (a, b) = trim_bounds(&part, false);
        let item = string_of(&part, a, b);
        let ghost before = out@;
        out.push(item);
        assert(string_views(out@) =~= string_views(before).push(item@));
        if end >= n {
            assert(string_views(out@) =~= string_views(before) + split_list(rest));
            return out;
        }
        assert(rest.subrange(end - start + 1, rest.len() as int) =~= cs@.subrange(
            end + 1,
            n as int,
        ));
        start = end + 1;
        assert(string_views(out@) + split_list(cs@.subrange(start as int, n as int))
            =~= string_views(before) + split_list(rest));
    }
}

/// The status filter that a `--status` text names: `resolved`,
/// `unresolved` or `ignored` in any case; anything else filters nothing.
pub open spec fn status_filter(s: Seq<char>) -> Option<IssueStatus> {
    if eq_ignore_ascii_case(s, "resolved"@) {
        Some(IssueStatus::Resolved)
    } else if eq_ignore_ascii_case(s, "unresolved"@) {
        Some(IssueStatus::Unresolved)
    } else if eq_ignore_ascii_case(s, "ignored"@) {
        Some(IssueStatus::Ignored)
    } else {
        None
    }
}

fn ascii_lower_char(c: char) -> (r: char)
    ensures
        r == crate::text::ascii_lower(c),
{
    if 'A' <= c && c <= 'Z' {
        ((c as u8) + 32) as char
    } else {
        c
    }
}

fn same_ignoring_case(a: &Vec<char>, b: &str) -> (r: bool)
    ensures
        r == eq_ignore_ascii_case(a@, b@),
{
    let bs = chars_of(b);
    if a.len() != bs.len() {
        return false;
    }
    let mut i: usize = 0;
    while i < a.len()
        invariant
            i <= a@.len() == bs@.len(),
            bs@ == b@,
            forall|j: int| 0 <= j < i ==> crate::text::ascii_lower(#[trigger] a@[j])
                == crate::text::ascii_lower(bs@[j]),
        decreases a@.len() - i,
    {
        if ascii_lower_char(a[i]) != ascii_lower_char(bs[i]) {
            return false;
        }
        i = i + 1;
    }
    true
}

fn parse_status(s: &str) -> (r: Option<IssueStatus>)
    ensures
        r == status_filter(s@),
{
    let cs = chars_of(s);
    if same_ignoring_case(&cs, "resolved") {
        Some(IssueStatus::Resolved)
    } else if same_ignoring_case(&cs, "unresolved") {
        Some(IssueStatus::Unresolved)
    } else if same_ignoring_case(&cs, "ignored") {
        Some(IssueStatus::Ignored)
    } else {
        None
    }
}

/// The listing that `issues list` asks for: the projects split at commas,
/// the status named by its text, sort and limit as given, no cursor.
pub fn list_issues(options: ListOptions) -> (r: ListIssuesParams)
    ensures
        match options.project {
            Some(p) => r.project matches Some(v) && string_views(v@) == split_list(p@),
            None => r.project is None,
        },
        r.query == options.query,
        r.status == match options.status {
            Some(s) => status_filter(s@),
            None => None,
        },
        opt_view(r.sort) == Some(options.sort@),
        r.limit == Some(options.limit),
        r.cursor is None,
{
    let status = match &options.status {
        Some(s) => parse_status(s.as_str()),
        None => None,
    };
    let project = match &options.project {
        Some(p) => Some(split_projects(p.as_str())),
        None => None,
    };
    ListIssuesParams {
        project,
        query: options.query,
        status,
        sort: Some(options.sort),
        limit: Some(options.limit),
        cursor: None,
    }
}

} // verus!
