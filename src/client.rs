//! The API client: which request each operation sends, how an unsuccessful
//! answer is classified, and the state of a paginated listing.
use vstd::prelude::*;
use vstd::string::*;
use crate::config::{as_str_opt, default_server_url, pick, str_view, Config};
use crate::error::SentryCliError;
use crate::link::{next_cursor, opt_view, parse_next_cursor};
use crate::model::{json_object, status_name, update_members, Issue, IssueStatus, IssueUpdate, ListIssuesParams};
use crate::text::{chars_of, concat, decimal, decimal_string};
use crate::urls::{api_path, api_reference, join_url, joined_url, pair_views, parse_url, parsed_url};

verus! {

/// The values of the environment variables that override the config file.
#[derive(Debug, Clone, Default)]
pub struct EnvVars {
    /// `SENTRY_AUTH_TOKEN`
    pub auth_token: Option<String>,
    /// `SENTRY_SERVER_URL`
    pub server_url: Option<String>,
    /// `SENTRY_ORG`
    pub org: Option<String>,
}

#[derive(Debug, Clone, Copy, PartialEq, Eq, Structural)]
pub enum Method {
    Get,
    Put,
    Delete,
}

/// One HTTP request, to be sent with the token as bearer credentials.
#[derive(Debug, Clone)]
pub struct HttpRequest {
    pub method: Method,
    pub url: String,
    pub auth_token: String,
    /// The JSON body, when there is one.
    pub body: Option<String>,
}

/// A client bound to one server, token and organization.
#[derive(Debug, Clone)]
pub struct SentryClient {
    /// The server's URL as parsed and serialized.
    pub base_url: String,
    pub auth_token: String,
    pub org_slug: String,
    pub verbose: bool,
}

/// Query parameters that repeat one name, one per value, in order.
pub open spec fn repeated(key: Seq<char>, values: Seq<Seq<char>>) -> Seq<(Seq<char>, Seq<char>)>
    decreases values.len(),
{
    if values.len() == 0 {
        Seq::empty()
    } else {
        repeated(key, values.drop_last()).push((key, values.last()))
    }
}

pub open spec fn string_views(v: Seq<String>) -> Seq<Seq<char>> {
    v.map_values(|s: String| s@)
}

pub open spec fn opt_pair(key: Seq<char>, v: Option<Seq<char>>) -> Seq<(Seq<char>, Seq<char>)> {
    match v {
        Some(x) => seq![(key, x)],
        None => Seq::empty(),
    }
}

/// The search text sent as `query`: the free text and the status filter
/// combined as `<text> is:<status>` when both are given.
pub open spec fn combined_query(q: Option<Seq<char>>, st: Option<IssueStatus>) -> Option<Seq<char>> {
    match (q, st) {
        (Some(q), Some(s)) => Some(q + " is:"@ + status_name(s)),
        (Some(q), None) => Some(q),
        (None, Some(s)) => Some("is:"@ + status_name(s)),
        (None, None) => None,
    }
}

pub open spec fn limit_text(l: Option<u32>) -> Option<Seq<char>> {
    match l {
        Some(n) => Some(decimal(n as u64)),
        None => None,
    }
}

pub open spec fn project_pairs(p: Option<Vec<String>>) -> Seq<(Seq<char>, Seq<char>)> {
    match p {
        Some(ps) => repeated("project"@, string_views(ps@)),
        None => Seq::empty(),
    }
}

/// The query parameters of an issue listing, in this order: one `project`
/// per project, `query`, `sort`, `limit`, `cursor`; absent ones left out.
pub open spec fn list_query(p: ListIssuesParams) -> Seq<(Seq<char>, Seq<char>)> {
    project_pairs(p.project) + opt_pair("query"@, combined_query(opt_view(p.query), p.status))
        + opt_pair("sort"@, opt_view(p.sort)) + opt_pair("limit"@, limit_text(p.limit))
        + opt_pair("cursor"@, opt_view(p.cursor))
}

pub open spec fn with_cursor(p: ListIssuesParams, c: Option<String>) -> ListIssuesParams {
    ListIssuesParams {
        project: p.project,
        query: p.query,
        status: p.status,
        sort: p.sort,
        limit: p.limit,
        cursor: c,
    }
}

/// The collection of an organization's issues.
pub open spec fn issues_path(org: Seq<char>) -> Seq<char> {
    "organizations/"@ + org + "/issues/"@
}

/// One issue of an organization.
pub open spec fn issue_path(org: Seq<char>, id: Seq<char>) -> Seq<char> {
    "organizations/"@ + org + "/issues/"@ + id + "/"@
}

/// The patch that merges issues.
pub open spec fn merge_patch() -> IssueUpdate {
    IssueUpdate {
        status: None,
        assigned_to: None,
        has_seen: None,
        is_bookmarked: None,
        merge: Some(true),
        ignore_duration: None,
        ignore_count: None,
        ignore_window: None,
        status_details: None,
    }
}

pub open spec fn body_of(u: IssueUpdate) -> Option<Seq<char>> {
    Some(json_object(update_members(u)))
}

fn push_pair(pairs: &mut Vec<(String, String)>, key: &str, value: String)
    ensures
        pair_views(final(pairs)@) == pair_views(old(pairs)@).push((key@, value@)),
{
    pairs.push((String::from_str(key), value));
    assert(pair_views(pairs@) =~= pair_views(old(pairs)@).push((key@, value@)));
}

fn push_opt_pair(pairs: &mut Vec<(String, String)>, key: &str, value: Option<String>)
    ensures
        pair_views(final(pairs)@) == pair_views(old(pairs)@) + opt_pair(key@, opt_view(value)),
{
    match value {
        Some(v) => push_pair(pairs, key, v),
        None => {},
    }
    assert(pair_views(pairs@) =~= pair_views(old(pairs)@) + opt_pair(key@, opt_view(value)));
}

fn push_repeated(pairs: &mut Vec<(String, String)>, key: &str, values: &Vec<String>)
    ensures
        pair_views(final(pairs)@) == pair_views(old(pairs)@) + repeated(
            key@,
            string_views(values@),
        ),
{
    let mut i: usize = 0;
    while i < values.len()
        invariant
            i <= values@.len(),
            pair_views(pairs@) == pair_views(old(pairs)@) + repeated(
                key@,
                string_views(values@.subrange(0, i as int)),
            ),
        decreases values@.len() - i,
    {
        assert(string_views(values@.subrange(0, i + 1)).drop_last() =~= string_views(
            values@.subrange(0, i as int),
        ));
        push_pair(pairs, key, values[i].clone());
        i = i + 1;
        assert(pair_views(pairs@) =~= pair_views(old(pairs)@) + repeated(
            key@,
            string_views(values@.subrange(0, i as int)),
        ));
    }
    assert(values@.subrange(0, values@.len() as int) =~= values@);
}

fn combine_query(q: &Option<String>, st: Option<IssueStatus>) -> (r: Option<String>)
    ensures
        opt_view(r) == combined_query(opt_view(*q), st),
{
    match (q, st) {
        (Some(q), Some(s)) => {
            let a = concat(q.as_str(), " is:");
            Some(concat(a.as_str(), s.as_str()))
        },
        (Some(q), None) => Some(q.clone()),
        (None, Some(s)) => Some(concat("is:", s.as_str())),
        (None, None) => None,
    }
}

/// The query parameters of a listing of `params` at `cursor`.
pub fn issues_query(params: &ListIssuesParams, cursor: &Option<String>) -> (r: Vec<(String, String)>)
    ensures
        pair_views(r@) == list_query(with_cursor(*params, *cursor)),
{
    let mut pairs: Vec<(String, String)> = Vec::new();
    assert(pair_views(pairs@) =~= Seq::empty());
    match &params.project {
        Some(ps) => push_repeated(&mut pairs, "project", ps),
        None => {},
    }
    assert(pair_views(pairs@) =~= project_pairs(params.project));
    push_opt_pair(&mut pairs, "query", combine_query(&params.query, params.status));
    push_opt_pair(&mut pairs, "sort", params.sort.clone());
    let limit = match params.limit {
        Some(n) => Some(decimal_string(n as u64)),
        None => None,
    };
    push_opt_pair(&mut pairs, "limit", limit);
    push_opt_pair(&mut pairs, "cursor", cursor.clone());
    assert(pair_views(pairs@) =~= list_query(with_cursor(*params, *cursor)));
    pairs
}

pub open spec fn digits_value(s: Seq<char>) -> int
    decreases s.len(),
{
    if s.len() == 0 {
        0
    } else {
        digits_value(s.drop_last()) * 10 + (s.last() as int - '0' as int)
    }
}

pub open spec fn all_digits(s: Seq<char>) -> bool {
    forall|i: int| 0 <= i < s.len() ==> '0' <= #[trigger] s[i] && s[i] <= '9'
}

/// The unsigned integer that `s` spells, as `u64::from_str` reads it.
pub open spec fn parsed_u64(s: Seq<char>) -> Option<u64> {
    let d = if s.len() > 0 && s[0] == '+' {
        s.drop_first()
    } else {
        s
    };
    if d.len() > 0 && all_digits(d) && digits_value(d) <= u64::MAX {
        Some(digits_value(d) as u64)
    } else {
        None
    }
}

proof fn lemma_digits_grow(d: Seq<char>, k: int)
    requires
        0 <= k <= d.len(),
        all_digits(d),
    ensures
        digits_value(d) >= digits_value(d.subrange(0, k)),
        digits_value(d) >= 0,
    decreases d.len(),
{
    if d.len() > 0 {
        let p = d.drop_last();
        assert(all_digits(p)) by {
            assert forall|i: int| 0 <= i < p.len() implies '0' <= #[trigger] p[i] && p[i] <= '9' by {
                assert(p[i] == d[i]);
            }
        }
        if k == d.len() {
            assert(d.subrange(0, k) =~= d);
            lemma_digits_grow(p, 0);
        } else {
            lemma_digits_grow(p, k);
            assert(p.subrange(0, k) =~= d.subrange(0, k));
        }
        assert('0' <= d.last() && d.last() <= '9');
    } else {
        assert(d.subrange(0, k) =~= d);
    }
}

/// `s` read as `u64::from_str` reads it: an optional `+`, then decimal
/// digits whose value fits.
pub fn parse_u64(s: &str) -> (r: Option<u64>)
    ensures
        r == parsed_u64(s@),
{
    let cs = chars_of(s);
    let n = cs.len();
    let start: usize = if n > 0 && cs[0] == '+' {
        1
    } else {
        0
    };
    let ghost d = cs@.subrange(start as int, n as int);
    assert(d =~= (if s@.len() > 0 && s@[0] == '+' {
        s@.drop_first()
    } else {
        s@
    }));
    if start == n {
        return None;
    }
    let mut acc: u64 = 0;
    let mut i: usize = start;
    while i < n
        invariant
            start <= i <= n == cs@.len(),
            cs@ == s@,
            d == cs@.subrange(start as int, n as int),
            d == (if s@.len() > 0 && s@[0] == '+' {
                s@.drop_first()
            } else {
                s@
            }),
            d.len() > 0,
            all_digits(cs@.subrange(start as int, i as int)),
            acc as int == digits_value(cs@.subrange(start as int, i as int)),
        decreases n - i,
    {
        let c = cs[i];
        let ghost pre = cs@.subrange(start as int, i as int);
        let ghost next = cs@.subrange(start as int, i + 1);
        assert(next.drop_last() =~= pre);
        if c < '0' || c > '9' {
            assert(!all_digits(d)) by {
                assert(d[i - start] == c);
            }
            return None;
        }
        assert(all_digits(next)) by {
            assert forall|j: int| 0 <= j < next.len() implies '0' <= #[trigger] next[j] && next[j]
                <= '9' by {
                if j < pre.len() {
                    assert(next[j] == pre[j]);
                }
            }
        }
        let digit: u64 = (c as u32 - '0' as u32) as u64;
        if acc > (u64::MAX - digit) / 10 {
            proof {
                assert(digits_value(next) > u64::MAX) by (nonlinear_arith)
                    requires
                        digits_value(next) == digits_value(pre) * 10 + digit,
                        acc as int == digits_value(pre),
                        acc > (u64::MAX - digit) / 10,
                        digit <= 9,
                ;
                if all_digits(d) {
                    lemma_digits_grow(d, i + 1 - start);
                    assert(d.subrange(0, i + 1 - start) =~= next);
                }
            }
            return None;
        }
        acc = acc * 10 + digit;
        i = i + 1;
    }
    assert(cs@.subrange(start as int, n as int) == d);
    Some(acc)
}

/// The `detail` string of a JSON object, if `body` is one that has it.
pub uninterp spec fn detail_of(body: Seq<char>) -> Option<Seq<char>>;

/// Relies on `serde_json::from_str` into a `serde_json::Value`, then
/// `Value::get("detail")` and `Value::as_str`.
#[verifier::external_body]
fn json_detail(body: &str) -> (r: Option<String>)
    ensures
        opt_view(r) == detail_of(body@),
{
    let v: serde_json::Value = serde_json::from_str(body).ok()?;
    v.get("detail")?.as_str().map(String::from)
}

/// The message of an error answer: the envelope's `detail`, else the body.
pub open spec fn error_message(body: Seq<char>) -> Seq<char> {
    match detail_of(body) {
        Some(d) => d,
        None => body,
    }
}

/// Seconds to wait after a 429: the `Retry-After` value, else 60.
pub open spec fn retry_seconds(header: Option<Seq<char>>) -> u64 {
    match header {
        Some(h) => match parsed_u64(h) {
            Some(n) => n,
            None => 60,
        },
        None => 60,
    }
}

/// The error that an unsuccessful answer stands for.
pub open spec fn classified(
    status: u16,
    retry_after: Option<Seq<char>>,
    body: Seq<char>,
    e: SentryCliError,
) -> bool {
    let m = error_message(body);
    if status == 401 {
        e matches SentryCliError::Auth(x) && x@ == m
    } else if status == 403 {
        e matches SentryCliError::Forbidden(x) && x@ == m
    } else if status == 404 {
        e matches SentryCliError::NotFound(x) && x@ == m
    } else if status == 429 {
        e matches SentryCliError::RateLimited { retry_after: n } && n == retry_seconds(retry_after)
    } else {
        e matches SentryCliError::Api { status: s, message: x } && s == status && x@ == m
    }
}

/// The server URL that a client uses: flag, environment, file, default.
pub open spec fn server_choice(config: Config, server_override: Option<&str>, env: EnvVars) -> Seq<
    char,
> {
    match pick(str_view(server_override), opt_view(env.server_url), opt_view(config.server_url)) {
        Some(u) => u,
        None => default_server_url(),
    }
}

/// A 2xx status.
pub fn is_success(status: u16) -> (r: bool)
    ensures
        r == (200 <= status && status < 300),
{
    200 <= status && status < 300
}

impl SentryClient {
    /// The client for the resolved token, server and organization; the token
    /// is looked for first, then the organization, then the server URL is
    /// parsed.
    pub fn new(
        config: &Config,
        org_override: Option<&str>,
        server_override: Option<&str>,
        token_override: Option<&str>,
        env: &EnvVars,
        verbose: bool,
    ) -> (r: Result<SentryClient, SentryCliError>)
        ensures
            ({
                let token = pick(
                    str_view(token_override),
                    opt_view(env.auth_token),
                    opt_view(config.auth_token),
                );
                let org = pick(str_view(org_override), opt_view(env.org), opt_view(config.default_org));
                let server = server_choice(*config, server_override, *env);
                match (token, org) {
                    (None, _) => r matches Err(SentryCliError::Auth(_)),
                    (Some(_), None) => r matches Err(SentryCliError::Config(_)),
                    (Some(t), Some(o)) => match parsed_url(server) {
                        None => r matches Err(SentryCliError::UrlParse(_)),
                        Some(u) => r matches Ok(c) && c.auth_token@ == t && c.org_slug@ == o
                            && c.base_url@ == u && c.verbose == verbose,
                    },
                }
            }),
    {
        let auth_token = match config.get_auth_token(token_override, as_str_opt(&env.auth_token)) {
            Ok(t) => t,
            Err(e) => return Err(e),
        };
        let base_url_str = config.get_server_url(server_override, as_str_opt(&env.server_url));
        let org_slug = match config.get_org(org_override, as_str_opt(&env.org)) {
            Ok(o) => o,
            Err(e) => return Err(e),
        };
        match parse_url(base_url_str.as_str()) {
            Ok(base_url) => Ok(SentryClient { base_url, auth_token, org_slug, verbose }),
            Err(e) => Err(SentryCliError::UrlParse(e)),
        }
    }

    /// The URL of an API resource on this client's server.
    pub open spec fn url_of(&self, path: Seq<char>, ps: Seq<(Seq<char>, Seq<char>)>) -> Option<
        Seq<char>,
    > {
        joined_url(self.base_url@, api_reference(path, ps))
    }

    /// `req` is the request `method` on the resource, with this client's
    /// token and the given body.
    pub open spec fn is_request(
        &self,
        req: HttpRequest,
        method: Method,
        path: Seq<char>,
        ps: Seq<(Seq<char>, Seq<char>)>,
        body: Option<Seq<char>>,
    ) -> bool {
        &&& self.url_of(path, ps) == Some(req.url@)
        &&& req.method == method
        &&& req.auth_token@ == self.auth_token@
        &&& opt_view(req.body) == body
    }

    /// `r` is that request, or a UrlParse error exactly when its URL does
    /// not resolve.
    pub open spec fn sends(
        &self,
        r: Result<HttpRequest, SentryCliError>,
        method: Method,
        path: Seq<char>,
        ps: Seq<(Seq<char>, Seq<char>)>,
        body: Option<Seq<char>>,
    ) -> bool {
        match r {
            Ok(req) => self.is_request(req, method, path, ps, body),
            Err(e) => e is UrlParse && self.url_of(path, ps) is None,
        }
    }

    fn request(
        &self,
        method: Method,
        path: &str,
        pairs: &Vec<(String, String)>,
        body: Option<String>,
    ) -> (r: Result<HttpRequest, SentryCliError>)
        ensures
            self.sends(r, method, path@, pair_views(pairs@), opt_view(body)),
    {
        let reference = api_path(path, pairs);
        match join_url(self.base_url.as_str(), reference.as_str()) {
            Ok(url) => Ok(HttpRequest { method, url, auth_token: self.auth_token.clone(), body }),
            Err(e) => Err(SentryCliError::UrlParse(e)),
        }
    }

    fn issues_path(&self) -> (r: String)
        ensures
            r@ == issues_path(self.org_slug@),
    {
        let a = concat("organizations/", self.org_slug.as_str());
        concat(a.as_str(), "/issues/")
    }

    fn issue_path(&self, issue_id: &str) -> (r: String)
        ensures
            r@ == issue_path(self.org_slug@, issue_id@),
    {
        let a = self.issues_path();
        let b = concat(a.as_str(), issue_id);
        concat(b.as_str(), "/")
    }

    /// The request for one page of the listing that `params` describes.
    pub fn list_issues(&self, params: &ListIssuesParams) -> (r: Result<HttpRequest, SentryCliError>)
        ensures
            self.sends(r, Method::Get, issues_path(self.org_slug@), list_query(*params), None),
    {
        let pairs = issues_query(params, &params.cursor);
        assert(with_cursor(*params, params.cursor) == *params);
        self.request(Method::Get, self.issues_path().as_str(), &pairs, None)
    }

    /// The request for one issue.
    pub fn get_issue(&self, issue_id: &str) -> (r: Result<HttpRequest, SentryCliError>)
        ensures
            self.sends(r, Method::Get, issue_path(self.org_slug@, issue_id@), Seq::empty(), None),
    {
        let pairs: Vec<(String, String)> = Vec::new();
        assert(pair_views(pairs@) =~= Seq::empty());
        self.request(Method::Get, self.issue_path(issue_id).as_str(), &pairs, None)
    }

    /// The request that applies `update` to one issue.
    pub fn update_issue(&self, issue_id: &str, update: IssueUpdate) -> (r: Result<
        HttpRequest,
        SentryCliError,
    >)
        ensures
            self.sends(
                r,
                Method::Put,
                issue_path(self.org_slug@, issue_id@),
                Seq::empty(),
                body_of(update),
            ),
    {
        let pairs: Vec<(String, String)> = Vec::new();
        assert(pair_views(pairs@) =~= Seq::empty());
        self.request(Method::Put, self.issue_path(issue_id).as_str(), &pairs, Some(update.to_json()))
    }

    /// The request that applies `update` to every issue of `issue_ids` at once.
    pub fn update_issues(&self, issue_ids: &Vec<String>, update: IssueUpdate) -> (r: Result<
        HttpRequest,
        SentryCliError,
    >)
        ensures
            self.sends(
                r,
                Method::Put,
                issues_path(self.org_slug@),
                repeated("id"@, string_views(issue_ids@)),
                body_of(update),
            ),
    {
        let mut pairs: Vec<(String, String)> = Vec::new();
        assert(pair_views(pairs@) =~= Seq::empty());
        push_repeated(&mut pairs, "id", issue_ids);
        assert(pair_views(pairs@) =~= repeated("id"@, string_views(issue_ids@)));
        self.request(Method::Put, self.issues_path().as_str(), &pairs, Some(update.to_json()))
    }

    /// The request that deletes one issue.
    pub fn delete_issue(&self, issue_id: &str) -> (r: Result<HttpRequest, SentryCliError>)
        ensures
            self.sends(r, Method::Delete, issue_path(self.org_slug@, issue_id@), Seq::empty(), None),
    {
        let pairs: Vec<(String, String)> = Vec::new();
        assert(pair_views(pairs@) =~= Seq::empty());
        self.request(Method::Delete, self.issue_path(issue_id).as_str(), &pairs, None)
    }

    /// The request that deletes every issue of `issue_ids` at once.
    pub fn delete_issues(&self, issue_ids: &Vec<String>) -> (r: Result<HttpRequest, SentryCliError>)
        ensures
            self.sends(
                r,
                Method::Delete,
                issues_path(self.org_slug@),
                repeated("id"@, string_views(issue_ids@)),
                None,
            ),
    {
        let mut pairs: Vec<(String, String)> = Vec::new();
        assert(pair_views(pairs@) =~= Seq::empty());
        push_repeated(&mut pairs, "id", issue_ids);
        assert(pair_views(pairs@) =~= repeated("id"@, string_views(issue_ids@)));
        self.request(Method::Delete, self.issues_path().as_str(), &pairs, None)
    }

    /// The request that merges `other_ids` into `primary_id`: the whole set
    /// of ids, primary first, with `merge` set.
    pub fn merge_issues(&self, primary_id: &str, other_ids: &Vec<String>) -> (r: Result<
        HttpRequest,
        SentryCliError,
    >)
        ensures
            self.sends(
                r,
                Method::Put,
                issues_path(self.org_slug@),
                repeated("id"@, seq![primary_id@] + string_views(other_ids@)),
                body_of(merge_patch()),
            ),
    {
        let mut all_ids: Vec<String> = Vec::new();
        all_ids.push(String::from_str(primary_id));
        let mut i: usize = 0;
        while i < other_ids.len()
            invariant
                i <= other_ids@.len(),
                string_views(all_ids@) == seq![primary_id@] + string_views(
                    other_ids@.subrange(0, i as int),
                ),
            decreases other_ids@.len() - i,
        {
            let ghost before = all_ids@;
            all_ids.push(other_ids[i].clone());
            assert(string_views(all_ids@) =~= string_views(before).push(other_ids@[i as int]@));
            assert(string_views(other_ids@.subrange(0, i + 1)) =~= string_views(
                other_ids@.subrange(0, i as int),
            ).push(other_ids@[i as int]@));
            i = i + 1;
            assert(string_views(all_ids@) =~= seq![primary_id@] + string_views(
                other_ids@.subrange(0, i as int),
            ));
        }
        assert(other_ids@.subrange(0, other_ids@.len() as int) =~= other_ids@);
        let mut pairs: Vec<(String, String)> = Vec::new();
        assert(pair_views(pairs@) =~= Seq::empty());
        push_repeated(&mut pairs, "id", &all_ids);
        assert(pair_views(pairs@) =~= repeated(
            "id"@,
            seq![primary_id@] + string_views(other_ids@),
        ));
        let update = IssueUpdate {
            status: None,
            assigned_to: None,
            has_seen: None,
            is_bookmarked: None,
            merge: Some(true),
            ignore_duration: None,
            ignore_count: None,
            ignore_window: None,
            status_details: None,
        };
        self.request(Method::Put, self.issues_path().as_str(), &pairs, Some(update.to_json()))
    }

    /// The error that an unsuccessful answer stands for: 401, 403, 404 and
    /// 429 by kind, any other status as an Api error; `retry_after` is the
    /// `Retry-After` header's text and `body` the answer's body.
    pub fn map_error_response(&self, status: u16, retry_after: Option<&str>, body: &str) -> (r:
        SentryCliError)
        ensures
            classified(status, str_view(retry_after), body@, r),
    {
        let retry: u64 = match retry_after {
            Some(h) => match parse_u64(h) {
                Some(n) => n,
                None => 60,
            },
            None => 60,
        };
        let message = match json_detail(body) {
            Some(d) => d,
            None => String::from_str(body),
        };
        if status == 401 {
            SentryCliError::Auth(message)
        } else if status == 403 {
            SentryCliError::Forbidden(message)
        } else if status == 404 {
            SentryCliError::NotFound(message)
        } else if status == 429 {
            SentryCliError::RateLimited { retry_after: retry }
        } else {
            SentryCliError::Api { status, message }
        }
    }

    /// A listing that gathers every page of `params`, starting at the first.
    pub fn list_all_issues(&self, params: ListIssuesParams) -> (r: IssuePager)
        ensures
            r.wf(),
            r.params == params,
            r.pages@ == Seq::<Seq<Issue>>::empty(),
            r.cursor is None,
            !r.done,
    {
        let r = IssuePager {
            params,
            issues: Vec::new(),
            cursor: None,
            done: false,
            pages: Ghost(Seq::empty()),
        };
        assert(r.issues@ =~= flatten(r.pages@));
        r
    }
}

/// The pages one after another.
pub open spec fn flatten(pages: Seq<Seq<Issue>>) -> Seq<Issue>
    decreases pages.len(),
{
    if pages.len() == 0 {
        Seq::empty()
    } else {
        flatten(pages.drop_last()) + pages.last()
    }
}

/// The sum of the pages' lengths.
pub open spec fn total_len(pages: Seq<Seq<Issue>>) -> nat
    decreases pages.len(),
{
    if pages.len() == 0 {
        0
    } else {
        total_len(pages.drop_last()) + pages.last().len()
    }
}

/// A listing in progress: the pages received so far, in order, and the
/// cursor of the next one.
pub struct IssuePager {
    pub params: ListIssuesParams,
    pub issues: Vec<Issue>,
    pub cursor: Option<String>,
    /// The last page received announced no further page.
    pub done: bool,
    pub pages: Ghost<Seq<Seq<Issue>>>,
}

impl IssuePager {
    pub open spec fn wf(&self) -> bool {
        self.issues@ == flatten(self.pages@)
    }

    /// The request for the next page, or `None` once the listing is complete.
    pub fn next_request(&self, client: &SentryClient) -> (r: Result<Option<HttpRequest>, SentryCliError>)
        ensures
            self.done ==> r matches Ok(None),
            !self.done ==> match r {
                Ok(Some(req)) => client.is_request(
                    req,
                    Method::Get,
                    issues_path(client.org_slug@),
                    list_query(with_cursor(self.params, self.cursor)),
                    None,
                ),
                Ok(None) => false,
                Err(e) => e is UrlParse && client.url_of(
                    issues_path(client.org_slug@),
                    list_query(with_cursor(self.params, self.cursor)),
                ) is None,
            },
    {
        if self.done {
            return Ok(None);
        }
        let pairs = issues_query(&self.params, &self.cursor);
        match client.request(Method::Get, client.issues_path().as_str(), &pairs, None) {
            Ok(req) => Ok(Some(req)),
            Err(e) => Err(e),
        }
    }

    /// Takes in a page and the `Link` header that came with it: its issues
    /// follow those already gathered, and the listing is complete when the
    /// header names no next cursor.
    pub fn add_page(&mut self, page: Vec<Issue>, link_header: Option<&str>)
        requires
            old(self).wf(),
        ensures
            final(self).wf(),
            final(self).pages@ == old(self).pages@.push(page@),
            final(self).issues@ == old(self).issues@ + page@,
            final(self).params == old(self).params,
            link_header is None ==> final(self).cursor is None,
            link_header matches Some(h) ==> opt_view(final(self).cursor) == next_cursor(h@),
            final(self).done == (final(self).cursor is None),
    {
        let mut page = page;
        let ghost p = page@;
        self.issues.append(&mut page);
        self.pages = Ghost(self.pages@.push(p));
        assert(self.pages@.drop_last() =~= old(self).pages@);
        let cursor = parse_next_cursor(link_header);
        self.done = cursor.is_none();
        self.cursor = cursor;
    }

    /// Every issue gathered, in page order.
    pub fn into_issues(self) -> (r: Vec<Issue>)
        ensures
            r@ == self.issues@,
    {
        self.issues
    }
}

proof fn lemma_repeated_keys(key: Seq<char>, values: Seq<Seq<char>>)
    ensures
        repeated(key, values).len() == values.len(),
        forall|i: int| 0 <= i < values.len() ==> (#[trigger] repeated(key, values)[i]).0 == key,
    decreases values.len(),
{
    if values.len() > 0 {
        lemma_repeated_keys(key, values.drop_last());
    }
}

/// When a listing has both a free-text query and a status filter, they go
/// out as one `query` parameter, `<text> is:<status>`, and as no other.
pub proof fn lemma_query_combines_status(p: ListIssuesParams)
    requires
        p.query is Some,
        p.status is Some,
    ensures
        ({
            let ps = list_query(p);
            let v = p.query.unwrap()@ + " is:"@ + status_name(p.status.unwrap());
            &&& exists|i: int| 0 <= i < ps.len() && #[trigger] ps[i] == ("query"@, v)
            &&& forall|j: int| 0 <= j < ps.len() && (#[trigger] ps[j]).0 == "query"@ ==> ps[j].1 == v
        }),
{
    reveal_strlit("query");
    reveal_strlit("project");
    reveal_strlit("sort");
    reveal_strlit("limit");
    reveal_strlit("cursor");
    let ps = list_query(p);
    let v = p.query.unwrap()@ + " is:"@ + status_name(p.status.unwrap());
    let pp = project_pairs(p.project);
    match p.project {
        Some(v) => lemma_repeated_keys("project"@, string_views(v@)),
        None => {},
    }
    assert(forall|i: int| 0 <= i < pp.len() ==> (#[trigger] pp[i]).0 == "project"@);
    assert(ps[pp.len() as int] == ("query"@, v));
    assert("project"@[0] != "query"@[0]);
    assert("sort"@[0] != "query"@[0]);
    assert("limit"@[0] != "query"@[0]);
    assert("cursor"@[0] != "query"@[0]);
}

proof fn lemma_flatten_len(pages: Seq<Seq<Issue>>)
    ensures
        flatten(pages).len() == total_len(pages),
    decreases pages.len(),
{
    if pages.len() > 0 {
        lemma_flatten_len(pages.drop_last());
    }
}

/// A listing holds every issue of every page it received, in page order,
/// and their number is the sum of the pages' sizes.
pub proof fn lemma_listing_concatenates(pager: IssuePager)
    requires
        pager.wf(),
    ensures
        pager.issues@ == flatten(pager.pages@),
        pager.issues@.len() == total_len(pager.pages@),
{
    lemma_flatten_len(pager.pages@);
}

} // verus!
