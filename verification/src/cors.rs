//! Which browser origins the server answers (`CORS_ALLOWED_ORIGINS`).

use vstd::prelude::*;
use crate::text::{lowercase, push_char, same_text, to_lowercase, trim, trimmed};

verus! {

/// The pieces of `s` between commas, as `str::split(',')` yields them (an
/// empty text is one empty piece).
pub open spec fn comma_pieces(s: Seq<char>) -> Seq<Seq<char>>
    decreases s.len(),
{
    if s.len() == 0 {
        seq![Seq::empty()]
    } else {
        let before = comma_pieces(s.drop_last());
        if s.last() == ',' {
            before.push(Seq::empty())
        } else {
            before.update(before.len() - 1, before.last().push(s.last()))
        }
    }
}

/// The origins named by some pieces: each piece trimmed, the empty ones
/// dropped, the rest in lower case.
pub open spec fn origins_of(pieces: Seq<Seq<char>>) -> Seq<Seq<char>>
    decreases pieces.len(),
{
    if pieces.len() == 0 {
        Seq::empty()
    } else {
        let rest = origins_of(pieces.drop_last());
        let t = trimmed(pieces.last());
        if t.len() > 0 {
            rest.push(lowercase(t))
        } else {
            rest
        }
    }
}

/// The origins allowed by the comma-separated setting `s`.
pub open spec fn allowed_origins_of(s: Seq<char>) -> Seq<Seq<char>> {
    origins_of(comma_pieces(s))
}

/// The texts of some strings.
pub open spec fn texts(v: Seq<String>) -> Seq<Seq<char>> {
    v.map_values(|x: String| x@)
}

/// Adds the origin that one piece names, if any.
fn push_origin(out: &mut Vec<String>, piece: &String, Ghost(done): Ghost<Seq<Seq<char>>>)
    requires
        texts(old(out)@) == origins_of(done),
    ensures
        texts(final(out)@) == origins_of(done.push(piece@)),
{
    assert(done.push(piece@).drop_last() == done);
    let t = trim(piece.as_str());
    if t.unicode_len() > 0 {
        let o = to_lowercase(t.as_str());
        out.push(o);
        assert(texts(out@) == texts(old(out)@).push(lowercase(trimmed(piece@))));
    }
}

/// Reads `CORS_ALLOWED_ORIGINS`: split at commas, each piece trimmed, empty
/// pieces dropped, the rest lower-cased.
pub fn parse_allowed_origins(s: &str) -> (r: Vec<String>)
    ensures
        texts(r@) == allowed_origins_of(s@),
{
    let n = s.unicode_len();
    let mut out: Vec<String> = Vec::new();
    let mut cur = String::new();
    let ghost mut done: Seq<Seq<char>> = Seq::empty();
    let mut i: usize = 0;
    assert(texts(out@) == Seq::<Seq<char>>::empty());
    assert(s@.take(0) == Seq::<char>::empty());
    while i < n
        invariant
            n == s@.len(),
            i <= n,
            comma_pieces(s@.take(i as int)) == done.push(cur@),
            texts(out@) == origins_of(done),
        decreases n - i,
    {
        let c = s.get_char(i);
        assert(s@.take(i + 1).drop_last() == s@.take(i as int));
        assert(s@.take(i + 1).last() == c);
        if c == ',' {
            push_origin(&mut out, &cur, Ghost(done));
            proof {
                done = done.push(cur@);
            }
            cur = String::new();
        } else {
            let ghost before = done.push(cur@);
            push_char(&mut cur, c);
            assert(before.update(before.len() - 1, before.last().push(c)) == done.push(cur@));
        }
        i = i + 1;
    }
    assert(s@.take(n as int) == s@);
    push_origin(&mut out, &cur, Ghost(done));
    out
}

/// Whether `origin`, already lower-cased, is one of the allowed origins.
pub fn lowered_origin_allowed(allowed: &Vec<String>, origin: &str) -> (b: bool)
    ensures
        b == texts(allowed@).contains(origin@),
{
    let mut i: usize = 0;
    while i < allowed.len()
        invariant
            i <= allowed@.len(),
            forall|j: int| 0 <= j < i ==> allowed@[j]@ != origin@,
        decreases allowed@.len() - i,
    {
        if same_text(allowed[i].as_str(), origin) {
            assert(texts(allowed@)[i as int] == origin@);
            return true;
        }
        i = i + 1;
    }
    assert forall|j: int| 0 <= j < texts(allowed@).len() implies texts(allowed@)[j] != origin@ by {
        assert(texts(allowed@)[j] == allowed@[j]@);
    }
    false
}

/// Whether a request's `Origin` is allowed: its lower-case form is one of
/// the allowed origins.
pub fn origin_allowed(allowed: &Vec<String>, origin: &str) -> (b: bool)
    ensures
        b == texts(allowed@).contains(lowercase(origin@)),
{
    let o = to_lowercase(origin);
    lowered_origin_allowed(allowed, o.as_str())
}

} // verus!
