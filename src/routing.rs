//! Reading what requests carry in plain text: the bearer token of the
//! `Authorization` header, the merchant id in a `/merchant/{id}/...` path, and
//! a comma-separated tag filter.
use vstd::prelude::*;
use vstd::string::*;
use crate::text::same_text;

verus! {

/// The pieces of `s` between occurrences of `sep`; empty pieces are kept, and
/// text without `sep` is one piece.
pub open spec fn split_spec(s: Seq<char>, sep: char) -> Seq<Seq<char>>
    decreases s.len(),
{
    if s.len() == 0 {
        seq![Seq::<char>::empty()]
    } else {
        let prev = split_spec(s.drop_last(), sep);
        if s.last() == sep {
            prev.push(Seq::<char>::empty())
        } else {
            prev.update(prev.len() - 1, prev.last().push(s.last()))
        }
    }
}

pub open spec fn views(v: Seq<String>) -> Seq<Seq<char>> {
    v.map_values(|p: String| p@)
}

/// Splitting always yields at least one piece.
proof fn lemma_split_nonempty(s: Seq<char>, sep: char)
    ensures
        split_spec(s, sep).len() >= 1,
    decreases s.len(),
{
    if s.len() > 0 {
        lemma_split_nonempty(s.drop_last(), sep);
    }
}

/// Splits `s` at every `sep`.
pub fn split_text(s: &str, sep: char) -> (r: Vec<String>)
    ensures
        views(r@) == split_spec(s@, sep),
{
    let n = s.unicode_len();
    let mut parts: Vec<String> = Vec::new();
    let mut cur = String::new();
    let mut i: usize = 0;
    assert(views(parts@) + seq![cur@] =~= split_spec(s@.subrange(0, 0), sep));
    while i < n
        invariant
            i <= n,
            n == s@.len(),
            views(parts@) + seq![cur@] == split_spec(s@.subrange(0, i as int), sep),
        decreases n - i,
    {
        let c = s.get_char(i);
        let ghost p = s@.subrange(0, i + 1);
        let ghost prev = split_spec(s@.subrange(0, i as int), sep);
        assert(p.drop_last() =~= s@.subrange(0, i as int));
        assert(p.last() == c);
        proof {
            lemma_split_nonempty(s@.subrange(0, i as int), sep);
        }
        if c == sep {
            let ghost old_parts = parts@;
            parts.push(cur);
            cur = String::new();
            assert(views(parts@) =~= views(old_parts).push(prev.last()));
            assert(views(parts@) + seq![cur@] =~= prev.push(Seq::<char>::empty()));
        } else {
            let ghost old_cur = cur@;
            let piece = s.substring_char(i, i + 1);
            assert(piece@ =~= seq![c]);
            cur.append(piece);
            assert(prev == views(parts@) + seq![old_cur]);
            assert(prev.len() == views(parts@).len() + 1);
            assert(prev[prev.len() - 1] == old_cur);
            assert(cur@ == old_cur.push(c));
            assert(views(parts@) + seq![cur@] =~= prev.update(prev.len() - 1, prev.last().push(c)));
        }
        i = i + 1;
    }
    assert(s@.subrange(0, n as int) =~= s@);
    parts.push(cur);
    assert(views(parts@) =~= split_spec(s@, sep));
    parts
}

/// The token of an `Authorization` header of the form `Bearer <token>`:
/// exactly two pieces around one space, the first being `Bearer`.
pub fn bearer_token(header: &str) -> (r: Option<String>)
    ensures
        ({
            let p = split_spec(header@, ' ');
            if p.len() == 2 && p[0] == "Bearer"@ {
                r matches Some(t) && t@ == p[1]
            } else {
                r is None
            }
        }),
{
    let mut parts = split_text(header, ' ');
    if parts.len() != 2 || !same_text(parts[0].as_str(), "Bearer") {
        return None;
    }
    assert(parts@[0]@ == views(parts@)[0]);
    let t = parts.pop().unwrap();
    assert(t@ == views(parts@.push(t))[1]);
    Some(t)
}

/// What the merchant check makes of a request path.
#[derive(Clone, Debug)]
pub enum MerchantRoute {
    /// Not below `/merchant/{id}`: the check lets it through.
    Other,
    /// Below `/merchant/{id}`, with this id text.
    Merchant(String),
}

/// Reads the merchant id out of a `/merchant/{id}/...` path.
pub fn merchant_route(path: &str) -> (r: MerchantRoute)
    ensures
        ({
            let p = split_spec(path@, '/');
            if p.len() > 2 && p[1] == "merchant"@ {
                r matches MerchantRoute::Merchant(id) && id@ == p[2]
            } else {
                r is Other
            }
        }),
{
    let parts = split_text(path, '/');
    if parts.len() > 2 && same_text(parts[1].as_str(), "merchant") {
        assert(parts@[2]@ == views(parts@)[2]);
        MerchantRoute::Merchant(parts[2].clone())
    } else {
        MerchantRoute::Other
    }
}

/// The tags of a `tags=` filter: none when absent or empty, else the
/// comma-separated pieces.
pub fn parse_tags(query: &Option<String>) -> (r: Vec<String>)
    ensures
        match query {
            Some(q) => if q@.len() > 0 {
                views(r@) == split_spec(q@, ',')
            } else {
                r@.len() == 0
            },
            None => r@.len() == 0,
        },
{
    match query {
        Some(q) => if q.as_str().unicode_len() > 0 {
            split_text(q.as_str(), ',')
        } else {
            Vec::new()
        },
        None => Vec::new(),
    }
}

} // verus!
