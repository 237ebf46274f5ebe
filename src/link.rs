//! Cursor extraction from a `Link` response header.
use vstd::prelude::*;
use crate::text::{
    chars_of, contains, contains_seq, find_char, find_from, has_prefix, slice_chars, starts_with,
    string_of, trim, trim_bounds,
};

verus! {

pub open spec fn cursor_key() -> Seq<char> {
    seq!['c', 'u', 'r', 's', 'o', 'r', '=']
}

pub open spec fn next_marker() -> Seq<char> {
    seq!['r', 'e', 'l', '=', '"', 'n', 'e', 'x', 't', '"']
}

pub open spec fn results_marker() -> Seq<char> {
    seq!['r', 'e', 's', 'u', 'l', 't', 's', '=', '"', 't', 'r', 'u', 'e', '"']
}

/// `s` with its leading `cursor=` removed, once.
pub open spec fn strip_cursor_key(s: Seq<char>) -> Seq<char> {
    s.subrange(cursor_key().len() as int, s.len() as int)
}

/// The cursor among the `;`-separated segments of one link entry: the first
/// trimmed segment that starts with `cursor=`, with that key removed once
/// and the quotes around the value removed.
pub open spec fn segment_cursor(part: Seq<char>) -> Option<Seq<char>>
    decreases part.len(),
{
    let end = find_char(part, ';');
    let seg = trim(part.subrange(0, end as int), false);
    if starts_with(seg, cursor_key()) {
        Some(trim(strip_cursor_key(seg), true))
    } else if end < part.len() {
        segment_cursor(part.subrange(end as int + 1, part.len() as int))
    } else {
        None
    }
}

/// A link entry that announces a further page.
pub open spec fn is_next_entry(part: Seq<char>) -> bool {
    contains(part, next_marker()) && contains(part, results_marker())
}

/// The cursor of the first `,`-separated entry of a `Link` header that is
/// marked `rel="next"` and `results="true"` and carries a cursor segment.
pub open spec fn next_cursor(link: Seq<char>) -> Option<Seq<char>>
    decreases link.len(),
{
    let end = find_char(link, ',');
    let part = link.subrange(0, end as int);
    let here = if is_next_entry(part) {
        segment_cursor(part)
    } else {
        None
    };
    if here is Some {
        here
    } else if end < link.len() {
        next_cursor(link.subrange(end as int + 1, link.len() as int))
    } else {
        None
    }
}

pub open spec fn opt_view(o: Option<String>) -> Option<Seq<char>> {
    match o {
        Some(s) => Some(s@),
        None => None,
    }
}

/// The cursor named by a `Link` header; `None` when the header is absent or
/// announces no further page.
pub fn parse_next_cursor(link_header: Option<&str>) -> (r: Option<String>)
    ensures
        link_header is None ==> r is None,
        link_header matches Some(h) ==> opt_view(r) == next_cursor(h@),
{
    match link_header {
        None => None,
        Some(h) => {
            let cs = chars_of(h);
            cursor_in_header(&cs)
        },
    }
}

fn cursor_in_header(cs: &Vec<char>) -> (r: Option<String>)
    ensures
        opt_view(r) == next_cursor(cs@),
{
    let next = vec!['r', 'e', 'l', '=', '"', 'n', 'e', 'x', 't', '"'];
    let results = vec!['r', 'e', 's', 'u', 'l', 't', 's', '=', '"', 't', 'r', 'u', 'e', '"'];
    assert(next@ =~= next_marker());
    assert(results@ =~= results_marker());
    let n = cs.len();
    let mut start: usize = 0;
    assert(cs@.subrange(0, n as int) =~= cs@);
    loop
        invariant
            start <= n == cs@.len(),
            next@ == next_marker(),
            results@ == results_marker(),
            next_cursor(cs@) == next_cursor(cs@.subrange(start as int, n as int)),
        decreases n - start,
    {
        let ghost rest = cs@.subrange(start as int, n as int);
        let end = find_from(cs, start, ',');
        let part = slice_chars(cs, start, end);
        assert(part@ =~= rest.subrange(0, end - start));
        let mut here: Option<String> = None;
        if contains_seq(&part, &next) && contains_seq(&part, &results) {
            here = cursor_in_entry(&part);
        }
        if here.is_some() {
            return here;
        }
        if end >= n {
            return None;
        }
        assert(rest.subrange(end - start + 1, rest.len() as int) =~= cs@.subrange(
            end + 1,
            n as int,
        ));
        start = end + 1;
    }
}

fn cursor_in_entry(part: &Vec<char>) -> (r: Option<String>)
    ensures
        opt_view(r) == segment_cursor(part@),
{
    let key = vec!['c', 'u', 'r', 's', 'o', 'r', '='];
    assert(key@ =~= cursor_key());
    let n = part.len();
    let mut start: usize = 0;
    assert(part@.subrange(0, n as int) =~= part@);
    loop
        invariant
            start <= n == part@.len(),
            key@ == cursor_key(),
            segment_cursor(part@) == segment_cursor(part@.subrange(start as int, n as int)),
        decreases n - start,
    {
        let ghost rest = part@.subrange(start as int, n as int);
        let end = find_from(part, start, ';');
        let seg = slice_chars(part, start, end);
        assert(seg@ =~= rest.subrange(0, end - start));
        let (a, b) = trim_bounds(&seg, false);
        let t = slice_chars(&seg, a, b);
        if has_prefix(&t, &key) {
            return Some(unquoted_value(&t, &key));
        }
        if end >= n {
            return None;
        }
        assert(rest.subrange(end - start + 1, rest.len() as int) =~= part@.subrange(
            end + 1,
            n as int,
        ));
        start = end + 1;
    }
}

/// The value of a `cursor=` segment: the key removed, then the quotes.
fn unquoted_value(seg: &Vec<char>, key: &Vec<char>) -> (r: String)
    requires
        key@ == cursor_key(),
        starts_with(seg@, cursor_key()),
    ensures
        r@ == trim(strip_cursor_key(seg@), true),
{
    let v = slice_chars(seg, key.len(), seg.len());
    let (a, b) = trim_bounds(&v, true);
    string_of(&v, a, b)
}

/// The `,`-separated entries of a `Link` header.
pub open spec fn link_entries(link: Seq<char>) -> Seq<Seq<char>>
    decreases link.len(),
{
    let end = find_char(link, ',');
    let part = link.subrange(0, end as int);
    if end < link.len() {
        seq![part] + link_entries(link.subrange(end as int + 1, link.len() as int))
    } else {
        seq![part]
    }
}

/// A `Link` header none of whose entries is marked both `rel="next"` and
/// `results="true"` names no cursor, so a listing stops after that page.
pub proof fn lemma_no_next_entry_no_cursor(link: Seq<char>)
    requires
        forall|i: int|
            0 <= i < link_entries(link).len() ==> !is_next_entry(#[trigger] link_entries(link)[i]),
    ensures
        next_cursor(link) is None,
    decreases link.len(),
{
    let end = find_char(link, ',');
    assert(link_entries(link)[0] == link.subrange(0, end as int));
    if end < link.len() {
        let rest = link.subrange(end as int + 1, link.len() as int);
        assert forall|i: int| 0 <= i < link_entries(rest).len() implies !is_next_entry(
            #[trigger] link_entries(rest)[i],
        ) by {
            assert(link_entries(rest)[i] == link_entries(link)[i + 1]);
        }
        lemma_no_next_entry_no_cursor(rest);
    }
}

} // verus!
