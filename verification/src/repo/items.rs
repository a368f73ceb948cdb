//! The catalogue's search text as SQL sees it.
use vstd::prelude::*;

verus! {

/// One character of a search, made literal for `LIKE … ESCAPE '\'`: the
/// escape character itself and LIKE's two wildcards get a backslash.
pub open spec fn escape_char(c: char) -> Seq<char> {
    if c == '\\' || c == '%' || c == '_' {
        seq!['\\', c]
    } else {
        seq![c]
    }
}

/// A search made literal, character by character.
pub open spec fn escape_like(s: Seq<char>) -> Seq<char>
    decreases s.len(),
{
    if s.len() == 0 {
        Seq::empty()
    } else {
        escape_like(s.drop_last()) + escape_char(s.last())
    }
}

/// How `LIKE … ESCAPE '\'` reads an escaped text back as literal
/// characters: a backslash takes the next character as itself.
pub open spec fn unescape_like(s: Seq<char>) -> Seq<char>
    decreases s.len(),
{
    if s.len() == 0 {
        Seq::empty()
    } else if s[0] == '\\' && s.len() >= 2 {
        seq![s[1]] + unescape_like(s.subrange(2, s.len() as int))
    } else {
        seq![s[0]] + unescape_like(s.drop_first())
    }
}

/// Whether `s` holds a wildcard that is not escaped.
pub open spec fn has_bare_wildcard(s: Seq<char>) -> bool
    decreases s.len(),
{
    if s.len() == 0 {
        false
    } else if s[0] == '\\' && s.len() >= 2 {
        has_bare_wildcard(s.subrange(2, s.len() as int))
    } else {
        s[0] == '%' || s[0] == '_' || has_bare_wildcard(s.drop_first())
    }
}

/// The `LIKE` pattern for a name search: the query made literal, between
/// two `%`, so it matches anywhere in the name.
pub open spec fn spec_like_pattern(query: Seq<char>) -> Seq<char> {
    seq!['%'] + escape_like(query) + seq!['%']
}

proof fn lemma_escape_prepend(c: char, s: Seq<char>)
    ensures
        escape_like(seq![c] + s) == escape_char(c) + escape_like(s),
    decreases s.len(),
{
    if s.len() == 0 {
        assert(seq![c] + s =~= seq![c]);
        assert(seq![c].drop_last() =~= Seq::<char>::empty());
        assert(escape_like(Seq::<char>::empty()) + escape_char(c) =~= escape_char(c) + Seq::<char>::empty());
    } else {
        let t = seq![c] + s;
        assert(t.drop_last() =~= seq![c] + s.drop_last());
        assert(t.last() == s.last());
        lemma_escape_prepend(c, s.drop_last());
        assert(escape_like(t) =~= escape_char(c) + escape_like(s));
    }
}

/// A search made literal reads back as exactly the search, and holds no
/// wildcard of its own: "50%" looks for "50%", not for "50" and anything.
pub proof fn lemma_search_is_literal(query: Seq<char>)
    ensures
        unescape_like(escape_like(query)) == query,
        !has_bare_wildcard(escape_like(query)),
    decreases query.len(),
{
    if query.len() > 0 {
        let c = query[0];
        let rest = query.drop_first();
        assert(query =~= seq![c] + rest);
        lemma_escape_prepend(c, rest);
        lemma_search_is_literal(rest);
        let e = escape_char(c) + escape_like(rest);
        if c == '\\' || c == '%' || c == '_' {
            assert(e.subrange(2, e.len() as int) =~= escape_like(rest));
        } else {
            assert(e.drop_first() =~= escape_like(rest));
        }
        assert(seq![c] + rest == query);
    }
}

/// The `LIKE` pattern for a name search.
pub fn like_pattern(query: &str) -> (r: String)
    ensures
        r@ == spec_like_pattern(query@),
{
    let mut out = String::from_str("%");
    proof {
        reveal_strlit("%");
    }
    let n = query.unicode_len();
    let mut i: usize = 0;
    while i < n
        invariant
            n == query@.len(),
            i <= n,
            out@ == seq!['%'] + escape_like(query@.subrange(0, i as int)),
        decreases n - i,
    {
        let c = query.get_char(i);
        let ghost before = out@;
        if c == '\\' {
            out.append("\\\\");
            proof { reveal_strlit("\\\\"); }
        } else if c == '%' {
            out.append("\\%");
            proof { reveal_strlit("\\%"); }
        } else if c == '_' {
            out.append("\\_");
            proof { reveal_strlit("\\_"); }
        } else {
            let one = query.substring_char(i, i + 1);
            assert(one@ =~= seq![c]);
            out.append(one);
        }
        proof {
            let pre = query@.subrange(0, i as int);
            let post = query@.subrange(0, i + 1);
            assert(post.drop_last() =~= pre);
            assert(post.last() == c);
            assert(out@ =~= before + escape_char(c));
        }
        i = i + 1;
    }
    assert(query@.subrange(0, n as int) =~= query@);
    out.append("%");
    assert(out@ =~= spec_like_pattern(query@));
    out
}

} // verus!
