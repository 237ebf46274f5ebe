//! The records that the API exchanges, and the JSON body of an update.
use vstd::prelude::*;
use vstd::string::*;
use crate::text::{decimal, decimal_string};

verus! {

#[derive(Debug, Clone)]
pub struct Actor {
    pub id: String,
    pub name: String,
    pub email: Option<String>,
    pub actor_type: String,
}

#[derive(Debug, Clone)]
pub struct ProjectRef {
    pub id: String,
    pub name: String,
    pub slug: String,
}

/// The JSON error envelope of the API: `{ "detail": ... }`.
#[derive(Debug, Clone)]
pub struct ApiError {
    pub detail: String,
}

#[derive(Debug, Clone, Copy, PartialEq, Eq, Structural)]
pub enum IssueStatus {
    Resolved,
    Unresolved,
    Ignored,
    Reprocessing,
}

pub open spec fn status_name(s: IssueStatus) -> Seq<char> {
    match s {
        IssueStatus::Resolved => "resolved"@,
        IssueStatus::Unresolved => "unresolved"@,
        IssueStatus::Ignored => "ignored"@,
        IssueStatus::Reprocessing => "reprocessing"@,
    }
}

impl IssueStatus {
    /// The lower-case name that the API and its search syntax use.
    pub fn as_str(&self) -> (r: &'static str)
        ensures
            r@ == status_name(*self),
    {
        match self {
            IssueStatus::Resolved => "resolved",
            IssueStatus::Unresolved => "unresolved",
            IssueStatus::Ignored => "ignored",
            IssueStatus::Reprocessing => "reprocessing",
        }
    }
}

#[derive(Debug, Clone, Default)]
pub struct IssueMetadata {
    pub value: Option<String>,
    pub filename: Option<String>,
    pub function: Option<String>,
}

/// An instant: seconds since the Unix epoch (UTC) and nanoseconds within
/// that second (a leap second may carry more than a second's worth).
#[derive(Debug, Clone, Copy, PartialEq, Eq, Structural)]
pub struct Timestamp {
    pub secs: i64,
    pub nanos: u32,
}

/// The instant in nanoseconds since the epoch.
pub open spec fn nanos_of(t: Timestamp) -> int {
    t.secs * 1_000_000_000 + t.nanos
}

#[derive(Debug, Clone)]
pub struct Issue {
    pub id: String,
    pub short_id: String,
    pub title: String,
    pub status: IssueStatus,
    pub level: String,
    pub count: String,
    pub user_count: u64,
    pub first_seen: Timestamp,
    pub last_seen: Timestamp,
    pub permalink: String,
    pub project: ProjectRef,
    pub assigned_to: Option<Actor>,
    pub is_bookmarked: bool,
    pub is_subscribed: bool,
    pub has_seen: bool,
    pub metadata: IssueMetadata,
    pub culprit: Option<String>,
}

/// Extra parameters of a status change; only present fields are sent.
#[derive(Debug, Clone)]
pub struct StatusDetails {
    pub in_release: Option<String>,
    pub in_next_release: Option<bool>,
    pub ignore_duration: Option<u64>,
    pub ignore_count: Option<u64>,
    pub ignore_until_escalating: Option<bool>,
}

/// A sparse patch of an issue; only present fields are sent.
#[derive(Debug, Clone)]
pub struct IssueUpdate {
    pub status: Option<IssueStatus>,
    pub assigned_to: Option<String>,
    pub has_seen: Option<bool>,
    pub is_bookmarked: Option<bool>,
    pub merge: Option<bool>,
    pub ignore_duration: Option<u64>,
    pub ignore_count: Option<u64>,
    pub ignore_window: Option<u64>,
    pub status_details: Option<StatusDetails>,
}

/// The query of an issue listing.
#[derive(Debug, Clone, Default)]
pub struct ListIssuesParams {
    pub project: Option<Vec<String>>,
    pub query: Option<String>,
    pub status: Option<IssueStatus>,
    pub sort: Option<String>,
    pub limit: Option<u32>,
    pub cursor: Option<String>,
}

impl IssueUpdate {
    /// The patch with no field set.
    pub fn empty() -> (r: IssueUpdate)
        ensures
            r.is_empty(),
    {
        IssueUpdate {
            status: None,
            assigned_to: None,
            has_seen: None,
            is_bookmarked: None,
            merge: None,
            ignore_duration: None,
            ignore_count: None,
            ignore_window: None,
            status_details: None,
        }
    }

    pub open spec fn is_empty(&self) -> bool {
        &&& self.status is None
        &&& self.assigned_to is None
        &&& self.has_seen is None
        &&& self.is_bookmarked is None
        &&& self.merge is None
        &&& self.ignore_duration is None
        &&& self.ignore_count is None
        &&& self.ignore_window is None
        &&& self.status_details is None
    }
}

impl Default for IssueUpdate {
    fn default() -> (r: IssueUpdate)
        ensures
            r.is_empty(),
    {
        IssueUpdate::empty()
    }
}

/// A lower-case hexadecimal digit.
pub open spec fn hex_digit(n: u32) -> char {
    if n < 10 {
        ((48 + n) as u8) as char
    } else {
        ((87 + n) as u8) as char
    }
}

/// One character inside a JSON string: `"` and `\` behind a backslash, the
/// control characters with a short escape where JSON has one and as
/// `\u00XX` otherwise, every other character as it is.
pub open spec fn json_escape(c: char) -> Seq<char> {
    let u = c as u32;
    if c == '"' {
        seq!['\\', '"']
    } else if c == '\\' {
        seq!['\\', '\\']
    } else if u == 0x08 {
        seq!['\\', 'b']
    } else if u == 0x09 {
        seq!['\\', 't']
    } else if u == 0x0A {
        seq!['\\', 'n']
    } else if u == 0x0C {
        seq!['\\', 'f']
    } else if u == 0x0D {
        seq!['\\', 'r']
    } else if u < 0x20 {
        seq!['\\', 'u', '0', '0', hex_digit(u / 16), hex_digit(u % 16)]
    } else {
        seq![c]
    }
}

pub open spec fn json_escaped(s: Seq<char>) -> Seq<char>
    decreases s.len(),
{
    if s.len() == 0 {
        Seq::empty()
    } else {
        json_escaped(s.drop_last()) + json_escape(s.last())
    }
}

/// The JSON string literal of `s`.
pub open spec fn json_quoted(s: Seq<char>) -> Seq<char> {
    seq!['"'] + json_escaped(s) + seq!['"']
}

/// Relies on `serde_json::to_string` on a `&str`: it writes the string
/// literal with the escapes above; it fails only for a `Serialize` impl that
/// fails or a map with non-string keys, neither of which a string is.
#[verifier::external_body]
fn quote_json(s: &str) -> (r: Result<String, serde_json::Error>)
    ensures
        r is Ok,
        r matches Ok(t) ==> t@ == json_quoted(s@),
{
    serde_json::to_string(s)
}

pub open spec fn json_bool(b: bool) -> Seq<char> {
    if b {
        "true"@
    } else {
        "false"@
    }
}

/// One member `"key":value` of a JSON object.
pub open spec fn member(key: Seq<char>, value: Seq<char>) -> Seq<char> {
    seq!['"'] + key + seq!['"', ':'] + value
}

/// The member for a present field, none for an absent one.
pub open spec fn opt_member(key: Seq<char>, value: Option<Seq<char>>) -> Seq<Seq<char>> {
    match value {
        Some(v) => seq![member(key, v)],
        None => Seq::empty(),
    }
}

pub open spec fn bool_value(v: Option<bool>) -> Option<Seq<char>> {
    match v {
        Some(b) => Some(json_bool(b)),
        None => None,
    }
}

pub open spec fn number_value(v: Option<u64>) -> Option<Seq<char>> {
    match v {
        Some(n) => Some(decimal(n)),
        None => None,
    }
}

pub open spec fn string_value(v: Option<String>) -> Option<Seq<char>> {
    match v {
        Some(s) => Some(json_quoted(s@)),
        None => None,
    }
}

pub open spec fn status_value(v: Option<IssueStatus>) -> Option<Seq<char>> {
    match v {
        Some(s) => Some(seq!['"'] + status_name(s) + seq!['"']),
        None => None,
    }
}

pub open spec fn details_value(v: Option<StatusDetails>) -> Option<Seq<char>> {
    match v {
        Some(d) => Some(json_object(details_members(d))),
        None => None,
    }
}

/// Members joined by commas between braces.
pub open spec fn json_object(members: Seq<Seq<char>>) -> Seq<char> {
    seq!['{'] + join_commas(members) + seq!['}']
}

pub open spec fn join_commas(members: Seq<Seq<char>>) -> Seq<char>
    decreases members.len(),
{
    if members.len() == 0 {
        Seq::empty()
    } else if members.len() == 1 {
        members[0]
    } else {
        join_commas(members.drop_last()) + seq![','] + members.last()
    }
}

pub open spec fn details_members(d: StatusDetails) -> Seq<Seq<char>> {
    opt_member("inRelease"@, string_value(d.in_release))
        + opt_member("inNextRelease"@, bool_value(d.in_next_release))
        + opt_member("ignoreDuration"@, number_value(d.ignore_duration))
        + opt_member("ignoreCount"@, number_value(d.ignore_count))
        + opt_member("ignoreUntilEscalating"@, bool_value(d.ignore_until_escalating))
}

pub open spec fn update_members(u: IssueUpdate) -> Seq<Seq<char>> {
    opt_member("status"@, status_value(u.status))
        + opt_member("assignedTo"@, string_value(u.assigned_to))
        + opt_member("hasSeen"@, bool_value(u.has_seen))
        + opt_member("isBookmarked"@, bool_value(u.is_bookmarked))
        + opt_member("merge"@, bool_value(u.merge))
        + opt_member("ignoreDuration"@, number_value(u.ignore_duration))
        + opt_member("ignoreCount"@, number_value(u.ignore_count))
        + opt_member("ignoreWindow"@, number_value(u.ignore_window))
        + opt_member("statusDetails"@, details_value(u.status_details))
}

proof fn lemma_join_push(ms: Seq<Seq<char>>, m: Seq<char>)
    ensures
        join_commas(ms.push(m)) == join_commas(ms) + (if ms.len() == 0 {
            Seq::<char>::empty()
        } else {
            seq![',']
        }) + m,
{
    assert(ms.push(m).drop_last() =~= ms);
    if ms.len() == 0 {
        assert(join_commas(ms) =~= Seq::<char>::empty());
        assert(ms.push(m)[0] == m);
        assert(join_commas(ms.push(m)) =~= join_commas(ms) + Seq::<char>::empty() + m);
    }
}

/// A JSON object being written member by member.
struct ObjectWriter {
    out: String,
    first: bool,
    members: Ghost<Seq<Seq<char>>>,
}

impl ObjectWriter {
    spec fn inv(&self) -> bool {
        &&& self.out@ == seq!['{'] + join_commas(self.members@)
        &&& self.first == (self.members@.len() == 0)
    }

    fn new() -> (r: ObjectWriter)
        ensures
            r.inv(),
            r.members@ == Seq::<Seq<char>>::empty(),
    {
        let out = String::from_str("{");
        proof {
            reveal_strlit("{");
            assert(join_commas(Seq::<Seq<char>>::empty()) =~= Seq::<char>::empty());
            assert(out@ =~= seq!['{'] + join_commas(Seq::<Seq<char>>::empty()));
        }
        ObjectWriter { out, first: true, members: Ghost(Seq::empty()) }
    }

    fn add(&mut self, key: &str, value: &str)
        requires
            old(self).inv(),
        ensures
            final(self).inv(),
            final(self).members@ == old(self).members@.push(member(key@, value@)),
    {
        proof {
            lemma_join_push(self.members@, member(key@, value@));
            reveal_strlit(",");
            reveal_strlit("\"");
            reveal_strlit("\":");
        }
        let ghost start = self.out@;
        if !self.first {
            self.out.append(",");
        }
        self.first = false;
        self.out.append("\"");
        self.out.append(key);
        self.out.append("\":");
        self.out.append(value);
        self.members = Ghost(self.members@.push(member(key@, value@)));
        assert(self.out@ =~= seq!['{'] + join_commas(self.members@));
    }

    fn finish(self) -> (r: String)
        requires
            self.inv(),
        ensures
            r@ == json_object(self.members@),
    {
        let mut out = self.out;
        out.append("}");
        proof {
            reveal_strlit("}");
        }
        assert(out@ =~= json_object(self.members@));
        out
    }
}

fn quoted_plain(s: &str) -> (r: String)
    ensures
        r@ == seq!['"'] + s@ + seq!['"'],
{
    let mut out = String::from_str("\"");
    out.append(s);
    out.append("\"");
    proof {
        reveal_strlit("\"");
    }
    assert(out@ =~= seq!['"'] + s@ + seq!['"']);
    out
}

fn bool_text(b: bool) -> (r: &'static str)
    ensures
        r@ == json_bool(b),
{
    if b {
        "true"
    } else {
        "false"
    }
}

fn add_bool(w: &mut ObjectWriter, key: &str, v: Option<bool>)
    requires
        old(w).inv(),
    ensures
        final(w).inv(),
        final(w).members@ == old(w).members@ + opt_member(key@, bool_value(v)),
{
    if let Some(b) = v {
        w.add(key, bool_text(b));
    }
    assert(w.members@ =~= old(w).members@ + opt_member(key@, bool_value(v)));
}

fn add_number(w: &mut ObjectWriter, key: &str, v: Option<u64>)
    requires
        old(w).inv(),
    ensures
        final(w).inv(),
        final(w).members@ == old(w).members@ + opt_member(key@, number_value(v)),
{
    if let Some(n) = v {
        w.add(key, decimal_string(n).as_str());
    }
    assert(w.members@ =~= old(w).members@ + opt_member(key@, number_value(v)));
}

fn add_string(w: &mut ObjectWriter, key: &str, v: &Option<String>)
    requires
        old(w).inv(),
    ensures
        final(w).inv(),
        final(w).members@ == old(w).members@ + opt_member(key@, string_value(*v)),
{
    if let Some(s) = v {
        if let Ok(q) = quote_json(s.as_str()) {
            w.add(key, q.as_str());
        }
    }
    assert(w.members@ =~= old(w).members@ + opt_member(key@, string_value(*v)));
}

impl StatusDetails {
    /// The JSON object of the present fields, in declaration order.
    pub fn to_json(&self) -> (r: String)
        ensures
            r@ == json_object(details_members(*self)),
    {
        let mut w = ObjectWriter::new();
        add_string(&mut w, "inRelease", &self.in_release);
        add_bool(&mut w, "inNextRelease", self.in_next_release);
        add_number(&mut w, "ignoreDuration", self.ignore_duration);
        add_number(&mut w, "ignoreCount", self.ignore_count);
        add_bool(&mut w, "ignoreUntilEscalating", self.ignore_until_escalating);
        assert(w.members@ =~= details_members(*self));
        w.finish()
    }
}

impl IssueUpdate {
    /// The JSON body of the patch: one member per present field, in
    /// declaration order, with camel-case keys; absent fields are left out.
    pub fn to_json(&self) -> (r: String)
        ensures
            r@ == json_object(update_members(*self)),
    {
        let mut w = ObjectWriter::new();
        let ghost m0 = w.members@;
        if let Some(st) = self.status {
            let q = quoted_plain(st.as_str());
            w.add("status", q.as_str());
        }
        assert(w.members@ =~= m0 + opt_member("status"@, status_value(self.status)));
        add_string(&mut w, "assignedTo", &self.assigned_to);
        add_bool(&mut w, "hasSeen", self.has_seen);
        add_bool(&mut w, "isBookmarked", self.is_bookmarked);
        add_bool(&mut w, "merge", self.merge);
        add_number(&mut w, "ignoreDuration", self.ignore_duration);
        add_number(&mut w, "ignoreCount", self.ignore_count);
        add_number(&mut w, "ignoreWindow", self.ignore_window);
        let ghost m8 = w.members@;
        if let Some(d) = &self.status_details {
            let t = d.to_json();
            w.add("statusDetails", t.as_str());
        }
        assert(w.members@ =~= m8 + opt_member("statusDetails"@, details_value(self.status_details)));
        assert(w.members@ =~= update_members(*self));
        w.finish()
    }
}

/// A patch that sets only the status is written as an object whose one
/// member is the status: `{"status":"<name>"}`, with no member for an unset
/// field.
pub proof fn lemma_status_only_body(u: IssueUpdate)
    requires
        u.status is Some,
        u.assigned_to is None,
        u.has_seen is None,
        u.is_bookmarked is None,
        u.merge is None,
        u.ignore_duration is None,
        u.ignore_count is None,
        u.ignore_window is None,
        u.status_details is None,
    ensures
        json_object(update_members(u)) == "{\"status\":\""@ + status_name(u.status.unwrap())
            + "\"}"@,
{
    reveal_strlit("status");
    reveal_strlit("{\"status\":\"");
    reveal_strlit("\"}");
    let m = member("status"@, seq!['"'] + status_name(u.status.unwrap()) + seq!['"']);
    assert(update_members(u) =~= seq![m]);
    assert(join_commas(seq![m]) == m);
    assert(json_object(update_members(u)) =~= "{\"status\":\""@ + status_name(u.status.unwrap())
        + "\"}"@);
}

} // verus!
