use vstd::prelude::*;

verus! {

/// True when the pattern `p` occurs in `s` starting exactly at index `i`.
pub open spec fn match_at(s: Seq<char>, p: Seq<char>, i: int) -> bool {
    0 <= i && i + p.len() <= s.len() && s.subrange(i, i + p.len()) == p
}

/// Index of the first occurrence of `p` in `s` at or after `from`,
/// or `None` when `p` does not occur there.
pub open spec fn first_match_from(s: Seq<char>, p: Seq<char>, from: int) -> Option<int>
    decreases s.len() - from + 1 when 0 <= from
{
    if from + p.len() > s.len() {
        None
    } else if match_at(s, p, from) {
        Some(from)
    } else {
        first_match_from(s, p, from + 1)
    }
}

/// Index of the leftmost occurrence of `p` in `s`.
pub open spec fn first_match(s: Seq<char>, p: Seq<char>) -> Option<int> {
    first_match_from(s, p, 0)
}

/// True when `p` occurs somewhere in `s`.
pub open spec fn contains_seq(s: Seq<char>, p: Seq<char>) -> bool {
    first_match(s, p) is Some
}

/// True when `s` begins with `p`.
pub open spec fn starts_with(s: Seq<char>, p: Seq<char>) -> bool {
    match_at(s, p, 0)
}

/// Does `p` occur in `s` at exactly position `i`?
pub fn matches_at(s: &str, i: usize, p: &str) -> (b: bool)
    ensures
        b == match_at(s@, p@, i as int),
{
    let n = s.unicode_len();
    let m = p.unicode_len();
    if i > n || m > n - i {
        return false;
    }
    let mut j: usize = 0;
    while j < m
        invariant
            j <= m,
            i + m <= n,
            n == s@.len(),
            m == p@.len(),
            forall|t: int| 0 <= t < j ==> s@[i + t] == p@[t],
        decreases m - j,
    {
        if s.get_char(i + j) != p.get_char(j) {
            proof {
                assert(s@.subrange(i as int, i + m as int)[j as int] == s@[i + j]);
            }
            return false;
        }
        j += 1;
    }
    proof {
        assert(s@.subrange(i as int, i + m as int) =~= p@);
    }
    true
}

/// Index of the leftmost occurrence of `p` in `s`, scanning left to right.
pub fn find_first(s: &str, p: &str) -> (r: Option<usize>)
    ensures
        r matches Some(i) ==> first_match(s@, p@) == Some(i as int),
        r is None ==> first_match(s@, p@) is None,
{
    let n = s.unicode_len();
    let m = p.unicode_len();
    if m > n {
        return None;
    }
    if m == 0 {
        proof {
            assert(s@.subrange(0, 0) =~= p@);
        }
        return Some(0);
    }
    let mut i: usize = 0;
    while i <= n - m
        invariant
            1 <= m <= n,
            n == s@.len(),
            m == p@.len(),
            i <= n - m + 1,
            first_match(s@, p@) == first_match_from(s@, p@, i as int),
        decreases n - i,
    {
        if matches_at(s, i, p) {
            return Some(i);
        }
        i += 1;
    }
    None
}

/// A found first match is a match, and no earlier position matches.
pub proof fn lemma_first_match_some(s: Seq<char>, p: Seq<char>, from: int, i: int)
    requires
        0 <= from,
        first_match_from(s, p, from) == Some(i),
    ensures
        from <= i,
        match_at(s, p, i),
    decreases s.len() - from + 1,
{
    if from + p.len() <= s.len() && !match_at(s, p, from) {
        lemma_first_match_some(s, p, from + 1, i);
    }
}

/// When no first match is found, no position at or after `from` matches.
pub proof fn lemma_first_match_none(s: Seq<char>, p: Seq<char>, from: int, i: int)
    requires
        0 <= from <= i,
        first_match_from(s, p, from) is None,
    ensures
        !match_at(s, p, i),
    decreases i - from,
{
    if from < i {
        lemma_first_match_none(s, p, from + 1, i);
    }
}

/// `s` with every occurrence of the HTML character reference `&#39;`
/// replaced by an apostrophe, scanning left to right.
pub open spec fn decode_apos(s: Seq<char>) -> Seq<char>
    decreases s.len(),
{
    if s.len() == 0 {
        s
    } else if s.len() >= 5 && s.subrange(0, 5) == "&#39;"@ {
        seq!['\''] + decode_apos(s.skip(5))
    } else {
        seq![s[0]] + decode_apos(s.skip(1))
    }
}

/// Replace every `&#39;` in `s` by an apostrophe.
pub fn decode_html_apostrophes(s: &str) -> (r: String)
    ensures
        r@ == decode_apos(s@),
{
    proof {
        reveal_strlit("&#39;");
        reveal_strlit("'");
    }
    let n = s.unicode_len();
    let mut r = String::new();
    let mut i: usize = 0;
    proof {
        assert(s@.skip(0) =~= s@);
        assert(r@ + decode_apos(s@) =~= decode_apos(s@));
    }
    while i < n
        invariant
            i <= n,
            n == s@.len(),
            decode_apos(s@) == r@ + decode_apos(s@.skip(i as int)),
            "&#39;"@.len() == 5,
            "'"@ == seq!['\''],
        decreases n - i,
    {
        let ghost rest = s@.skip(i as int);
        if matches_at(s, i, "&#39;") {
            proof {
                assert(rest.subrange(0, 5) =~= s@.subrange(i as int, i + 5));
                assert(rest.skip(5) =~= s@.skip(i + 5));
                assert(decode_apos(rest) == seq!['\''] + decode_apos(rest.skip(5)));
            }
            r.append("'");
            i += 5;
            proof {
                assert(decode_apos(s@) =~= r@ + decode_apos(s@.skip(i as int)));
            }
        } else {
            proof {
                if rest.len() >= 5 {
                    assert(rest.subrange(0, 5) =~= s@.subrange(i as int, i + 5));
                }
                assert(rest.skip(1) =~= s@.skip(i + 1));
                assert(rest[0] == s@[i as int]);
                assert(decode_apos(rest) == seq![s@[i as int]] + decode_apos(rest.skip(1)));
            }
            let piece = s.substring_char(i, i + 1);
            proof {
                assert(piece@ =~= seq![s@[i as int]]);
            }
            r.append(piece);
            i += 1;
            proof {
                assert(decode_apos(s@) =~= r@ + decode_apos(s@.skip(i as int)));
            }
        }
    }
    proof {
        assert(s@.skip(n as int) =~= Seq::<char>::empty());
        assert(decode_apos(s@) =~= r@);
    }
    r
}

} // verus!
