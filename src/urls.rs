//! URLs: parsing and resolving through the `url` crate, and the query string.
use vstd::prelude::*;
use vstd::string::*;
use crate::text::concat;

verus! {

/// The serialization of `s` parsed as an absolute URL, if it parses.
pub uninterp spec fn parsed_url(s: Seq<char>) -> Option<Seq<char>>;

/// The serialization of `reference` resolved against the URL `base`, if
/// both parse.
pub uninterp spec fn joined_url(base: Seq<char>, reference: Seq<char>) -> Option<Seq<char>>;

/// `s` in `application/x-www-form-urlencoded` form.
pub uninterp spec fn form_encoded(s: Seq<char>) -> Seq<char>;

/// The characters that the form encoding leaves as they are.
pub open spec fn form_safe(c: char) -> bool {
    c == '*' || c == '-' || c == '.' || c == '_' || ('0' <= c && c <= '9') || ('A' <= c && c
        <= 'Z') || ('a' <= c && c <= 'z')
}

/// Relies on `url::Url::parse`, serialized back with `String::from`.
#[verifier::external_body]
pub(crate) fn parse_url(s: &str) -> (r: Result<String, url::ParseError>)
    ensures
        r matches Ok(u) ==> parsed_url(s@) == Some(u@),
        r is Err ==> parsed_url(s@) is None,
{
    url::Url::parse(s).map(String::from)
}

/// Relies on `url::Url::parse` of `base` and `url::Url::join` of
/// `reference` onto it, serialized back with `String::from`.
#[verifier::external_body]
pub(crate) fn join_url(base: &str, reference: &str) -> (r: Result<String, url::ParseError>)
    ensures
        r matches Ok(u) ==> joined_url(base@, reference@) == Some(u@),
        r is Err ==> joined_url(base@, reference@) is None,
{
    let b = url::Url::parse(base)?;
    let u = b.join(reference)?;
    Ok(String::from(u))
}

/// Relies on `url::form_urlencoded::byte_serialize` of the UTF-8 bytes of
/// `s`: ASCII letters, digits and `*-._` pass unchanged.
#[verifier::external_body]
pub(crate) fn form_encode(s: &str) -> (r: String)
    ensures
        r@ == form_encoded(s@),
        (forall|i: int| 0 <= i < s@.len() ==> form_safe(#[trigger] s@[i])) ==> r@ == s@,
{
    url::form_urlencoded::byte_serialize(s.as_bytes()).collect()
}

/// A query parameter as its name and value.
pub open spec fn pair_views(ps: Seq<(String, String)>) -> Seq<(Seq<char>, Seq<char>)> {
    ps.map_values(|p: (String, String)| (p.0@, p.1@))
}

pub open spec fn encoded_pair(p: (Seq<char>, Seq<char>)) -> Seq<char> {
    form_encoded(p.0) + seq!['='] + form_encoded(p.1)
}

/// The query string: each pair form-encoded as `name=value`, joined by `&`.
pub open spec fn query_string(ps: Seq<(Seq<char>, Seq<char>)>) -> Seq<char>
    decreases ps.len(),
{
    if ps.len() == 0 {
        Seq::empty()
    } else if ps.len() == 1 {
        encoded_pair(ps[0])
    } else {
        query_string(ps.drop_last()) + seq!['&'] + encoded_pair(ps.last())
    }
}

/// The reference of an API resource: the versioned prefix, the path, and the
/// query when there is one.
pub open spec fn api_reference(path: Seq<char>, ps: Seq<(Seq<char>, Seq<char>)>) -> Seq<char> {
    seq!['/', 'a', 'p', 'i', '/', '0', '/'] + path + if ps.len() == 0 {
        Seq::<char>::empty()
    } else {
        seq!['?'] + query_string(ps)
    }
}

/// The query string of `pairs`.
pub fn encode_query(pairs: &Vec<(String, String)>) -> (r: String)
    ensures
        r@ == query_string(pair_views(pairs@)),
{
    let mut out = String::new();
    let mut i: usize = 0;
    while i < pairs.len()
        invariant
            i <= pairs@.len(),
            out@ == query_string(pair_views(pairs@.subrange(0, i as int))),
        decreases pairs@.len() - i,
    {
        let ghost before = pairs@.subrange(0, i as int);
        let ghost after = pairs@.subrange(0, i + 1);
        assert(pair_views(after).drop_last() =~= pair_views(before));
        if i > 0 {
            out.append("&");
            proof {
                reveal_strlit("&");
            }
        }
        let k = form_encode(pairs[i].0.as_str());
        let v = form_encode(pairs[i].1.as_str());
        out.append(k.as_str());
        out.append("=");
        out.append(v.as_str());
        proof {
            reveal_strlit("=");
            if i == 0 {
                assert(query_string(pair_views(before)) =~= Seq::<char>::empty());
            }
        }
        assert(out@ =~= query_string(pair_views(after)));
        i = i + 1;
    }
    assert(pairs@.subrange(0, pairs@.len() as int) =~= pairs@);
    out
}

/// The reference `/api/0/<path>[?<query>]`.
pub fn api_path(path: &str, pairs: &Vec<(String, String)>) -> (r: String)
    ensures
        r@ == api_reference(path@, pair_views(pairs@)),
{
    let mut out = concat("/api/0/", path);
    proof {
        reveal_strlit("/api/0/");
    }
    if pairs.len() > 0 {
        out.append("?");
        let q = encode_query(pairs);
        out.append(q.as_str());
        proof {
            reveal_strlit("?");
        }
    }
    assert(out@ =~= api_reference(path@, pair_views(pairs@)));
    out
}

} // verus!
