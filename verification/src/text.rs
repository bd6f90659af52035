//! Verified text utilities: suffix and prefix tests, splitting on a
//! separator, trimming, and whitespace tokenization.
//!
//! Whitespace here means space, tab, carriage return and line feed: the
//! characters that occur in the metadata files this library scans.

use vstd::prelude::*;

verus! {

/// The whitespace characters this library recognizes.
pub open spec fn is_ws(c: char) -> bool {
    c == ' ' || c == '\t' || c == '\r' || c == '\n'
}

/// Executable form of [`is_ws`].
pub fn ws_char(c: char) -> (r: bool)
    ensures
        r == is_ws(c),
{
    c == ' ' || c == '\t' || c == '\r' || c == '\n'
}

/// The character views of a sequence of strings.
pub open spec fn views_of(v: Seq<String>) -> Seq<Seq<char>> {
    v.map_values(|x: String| x@)
}

pub proof fn lemma_views_of_push(v: Seq<String>, x: String)
    ensures
        views_of(v.push(x)) == views_of(v).push(x@),
{
    assert(views_of(v.push(x)) =~= views_of(v).push(x@));
}

/// `t` is a suffix of `s`.
pub open spec fn spec_ends_with(s: Seq<char>, t: Seq<char>) -> bool {
    t.len() <= s.len() && s.subrange(s.len() - t.len(), s.len() as int) == t
}

/// `t` is a prefix of `s`.
pub open spec fn spec_starts_with(s: Seq<char>, t: Seq<char>) -> bool {
    t.len() <= s.len() && s.subrange(0, t.len() as int) == t
}

pub fn ends_with(s: &str, t: &str) -> (r: bool)
    ensures
        r == spec_ends_with(s@, t@),
{
    let n: usize = s.unicode_len();
    let m: usize = t.unicode_len();
    if m > n {
        return false;
    }
    let mut i: usize = 0;
    while i < m
        invariant
            i <= m <= n,
            n == s@.len(),
            m == t@.len(),
            forall|j: int| 0 <= j < i ==> s@[n - m + j] == t@[j],
        decreases m - i,
    {
        if s.get_char(n - m + i) != t.get_char(i) {
            proof {
                assert(s@.subrange(n - m, n as int)[i as int] != t@[i as int]);
            }
            return false;
        }
        i += 1;
    }
    proof {
        assert(s@.subrange(n - m, n as int) =~= t@);
    }
    true
}

pub fn starts_with(s: &str, t: &str) -> (r: bool)
    ensures
        r == spec_starts_with(s@, t@),
{
    let n: usize = s.unicode_len();
    let m: usize = t.unicode_len();
    if m > n {
        return false;
    }
    let mut i: usize = 0;
    while i < m
        invariant
            i <= m <= n,
            n == s@.len(),
            m == t@.len(),
            forall|j: int| 0 <= j < i ==> s@[j] == t@[j],
        decreases m - i,
    {
        if s.get_char(i) != t.get_char(i) {
            proof {
                assert(s@.subrange(0, m as int)[i as int] != t@[i as int]);
            }
            return false;
        }
        i += 1;
    }
    proof {
        assert(s@.subrange(0, m as int) =~= t@);
    }
    true
}

/// `s` contains the character `c`.
pub open spec fn spec_contains_char(s: Seq<char>, c: char) -> bool {
    exists|j: int| 0 <= j < s.len() && s[j] == c
}

pub fn contains_char(s: &str, c: char) -> (r: bool)
    ensures
        r == spec_contains_char(s@, c),
{
    let n: usize = s.unicode_len();
    let mut i: usize = 0;
    while i < n
        invariant
            i <= n,
            n == s@.len(),
            forall|j: int| 0 <= j < i ==> s@[j] != c,
        decreases n - i,
    {
        if s.get_char(i) == c {
            return true;
        }
        i += 1;
    }
    false
}

/// Splitting on a separator character; the result always has at least one
/// segment, and a trailing separator yields a trailing empty segment.
pub open spec fn spec_split(s: Seq<char>, sep: char) -> Seq<Seq<char>>
    decreases s.len(),
{
    if s.len() == 0 {
        seq![Seq::<char>::empty()]
    } else {
        let prev = spec_split(s.drop_last(), sep);
        if s.last() == sep {
            prev.push(Seq::empty())
        } else {
            prev.update(prev.len() - 1, prev.last().push(s.last()))
        }
    }
}

pub fn split_char(s: &str, sep: char) -> (r: Vec<String>)
    ensures
        views_of(r@) == spec_split(s@, sep),
{
    let n: usize = s.unicode_len();
    let mut out: Vec<String> = Vec::new();
    let mut start: usize = 0;
    let mut i: usize = 0;
    proof {
        assert(s@.take(0) =~= Seq::<char>::empty());
        assert(s@.subrange(0, 0) =~= Seq::<char>::empty());
        assert(views_of(out@).push(Seq::<char>::empty()) =~= seq![Seq::<char>::empty()]);
    }
    while i < n
        invariant
            start <= i <= n,
            n == s@.len(),
            views_of(out@).push(s@.subrange(start as int, i as int)) == spec_split(
                s@.take(i as int),
                sep,
            ),
        decreases n - i,
    {
        let c = s.get_char(i);
        proof {
            assert(s@.take(i as int + 1).drop_last() =~= s@.take(i as int));
            assert(s@.take(i as int + 1).last() == s@[i as int]);
        }
        if c == sep {
            let seg = s.substring_char(start, i).to_owned();
            proof {
                lemma_views_of_push(out@, seg);
            }
            out.push(seg);
            start = i + 1;
            proof {
                assert(s@.subrange(start as int, i as int + 1) =~= Seq::<char>::empty());
            }
        } else {
            proof {
                let prev = views_of(out@).push(s@.subrange(start as int, i as int));
                assert(prev.update(prev.len() - 1, prev.last().push(s@[i as int])) =~~= views_of(
                    out@,
                ).push(s@.subrange(start as int, i as int + 1)));
            }
        }
        i += 1;
    }
    let seg = s.substring_char(start, n).to_owned();
    proof {
        lemma_views_of_push(out@, seg);
        assert(s@.take(n as int) =~= s@);
    }
    out.push(seg);
    out
}

/// Trimming recognized whitespace from the front.
pub open spec fn spec_trim_start(s: Seq<char>) -> Seq<char>
    decreases s.len(),
{
    if s.len() > 0 && is_ws(s[0]) {
        spec_trim_start(s.drop_first())
    } else {
        s
    }
}

/// Trimming recognized whitespace from the back.
pub open spec fn spec_trim_end(s: Seq<char>) -> Seq<char>
    decreases s.len(),
{
    if s.len() > 0 && is_ws(s.last()) {
        spec_trim_end(s.drop_last())
    } else {
        s
    }
}

/// Trimming recognized whitespace from both ends.
pub open spec fn spec_trim(s: Seq<char>) -> Seq<char> {
    spec_trim_end(spec_trim_start(s))
}

proof fn lemma_trim_start_skip(s: Seq<char>, a: int)
    requires
        0 <= a <= s.len(),
        forall|j: int| 0 <= j < a ==> is_ws(s[j]),
        a == s.len() || !is_ws(s[a]),
    ensures
        spec_trim_start(s) == s.skip(a),
    decreases a,
{
    if a == 0 {
        assert(s.skip(0) =~= s);
    } else {
        assert(is_ws(s[0]));
        let t = s.drop_first();
        lemma_trim_start_skip(t, a - 1);
        assert(t.skip(a - 1) =~= s.skip(a));
    }
}

proof fn lemma_trim_end_take(s: Seq<char>, b: int)
    requires
        0 <= b <= s.len(),
        forall|j: int| b <= j < s.len() ==> is_ws(s[j]),
        b == 0 || !is_ws(s[b - 1]),
    ensures
        spec_trim_end(s) == s.take(b),
    decreases s.len() - b,
{
    if b == s.len() {
        assert(s.take(b) =~= s);
    } else {
        assert(is_ws(s.last()));
        let t = s.drop_last();
        lemma_trim_end_take(t, b);
        assert(t.take(b) =~= s.take(b));
    }
}

pub fn trim(s: &str) -> (r: String)
    ensures
        r@ == spec_trim(s@),
{
    let n: usize = s.unicode_len();
    let mut a: usize = 0;
    while a < n && ws_char(s.get_char(a))
        invariant
            a <= n,
            n == s@.len(),
            forall|j: int| 0 <= j < a ==> is_ws(s@[j]),
        decreases n - a,
    {
        a += 1;
    }
    proof {
        lemma_trim_start_skip(s@, a as int);
    }
    if a == n {
        proof {
            assert(s@.skip(a as int) =~= Seq::<char>::empty());
        }
        return String::new();
    }
    let mut b: usize = n;
    while b > a && ws_char(s.get_char(b - 1))
        invariant
            a <= b <= n,
            n == s@.len(),
            forall|j: int| b <= j < n ==> is_ws(s@[j]),
        decreases b,
    {
        b -= 1;
    }
    proof {
        let t = s@.skip(a as int);
        assert(forall|j: int|
            b - a <= j < t.len() ==> is_ws(#[trigger] t[j]) && t[j] == s@[j + a]);
        if b > a {
            assert(!is_ws(t[b - a - 1]));
        }
        lemma_trim_end_take(t, b - a);
        assert(t.take(b - a) =~= s@.subrange(a as int, b as int));
    }
    s.substring_char(a, b).to_owned()
}

/// Whitespace tokenization, folded over the characters: the finished
/// tokens so far and the token currently being read.
pub open spec fn spec_split_ws_state(s: Seq<char>) -> (Seq<Seq<char>>, Seq<char>)
    decreases s.len(),
{
    if s.len() == 0 {
        (Seq::<Seq<char>>::empty(), Seq::<char>::empty())
    } else {
        let (toks, cur) = spec_split_ws_state(s.drop_last());
        if is_ws(s.last()) {
            if cur.len() == 0 {
                (toks, cur)
            } else {
                (toks.push(cur), Seq::<char>::empty())
            }
        } else {
            (toks, cur.push(s.last()))
        }
    }
}

/// The whitespace-separated tokens of `s`, in order; no token is empty.
pub open spec fn spec_split_ws(s: Seq<char>) -> Seq<Seq<char>> {
    let (toks, cur) = spec_split_ws_state(s);
    if cur.len() == 0 {
        toks
    } else {
        toks.push(cur)
    }
}

pub fn split_ws(s: &str) -> (r: Vec<String>)
    ensures
        views_of(r@) == spec_split_ws(s@),
{
    let n: usize = s.unicode_len();
    let mut out: Vec<String> = Vec::new();
    let mut tok_start: usize = 0;
    let mut in_tok: bool = false;
    let mut i: usize = 0;
    proof {
        assert(s@.take(0) =~= Seq::<char>::empty());
        assert(views_of(out@) =~= Seq::<Seq<char>>::empty());
    }
    while i < n
        invariant
            i <= n,
            n == s@.len(),
            in_tok ==> tok_start < i,
            views_of(out@) == spec_split_ws_state(s@.take(i as int)).0,
            in_tok ==> spec_split_ws_state(s@.take(i as int)).1 == s@.subrange(
                tok_start as int,
                i as int,
            ),
            !in_tok ==> spec_split_ws_state(s@.take(i as int)).1 == Seq::<char>::empty(),
        decreases n - i,
    {
        let c = s.get_char(i);
        proof {
            assert(s@.take(i as int + 1).drop_last() =~= s@.take(i as int));
            assert(s@.take(i as int + 1).last() == s@[i as int]);
        }
        if ws_char(c) {
            if in_tok {
                let seg = s.substring_char(tok_start, i).to_owned();
                proof {
                    lemma_views_of_push(out@, seg);
                }
                out.push(seg);
                in_tok = false;
            }
        } else {
            if !in_tok {
                tok_start = i;
                in_tok = true;
            }
            proof {
                assert(spec_split_ws_state(s@.take(i as int)).1.push(s@[i as int]) =~= s@.subrange(
                    tok_start as int,
                    i as int + 1,
                ));
            }
        }
        i += 1;
    }
    proof {
        assert(s@.take(n as int) =~= s@);
    }
    if in_tok {
        let seg = s.substring_char(tok_start, n).to_owned();
        proof {
            lemma_views_of_push(out@, seg);
        }
        out.push(seg);
    }
    out
}

/// Dropping the tokens that begin with the substitution placeholder
/// marker `%`: field codes are discarded, not substituted.
pub open spec fn spec_drop_field_codes(toks: Seq<Seq<char>>) -> Seq<Seq<char>>
    decreases toks.len(),
{
    if toks.len() == 0 {
        Seq::<Seq<char>>::empty()
    } else {
        let prev = spec_drop_field_codes(toks.drop_last());
        let t = toks.last();
        if t.len() > 0 && t[0] == '%' {
            prev
        } else {
            prev.push(t)
        }
    }
}

pub fn drop_field_codes(toks: Vec<String>) -> (r: Vec<String>)
    ensures
        views_of(r@) == spec_drop_field_codes(views_of(toks@)),
{
    let mut out: Vec<String> = Vec::new();
    let mut i: usize = 0;
    proof {
        assert(views_of(toks@).subrange(0, 0) =~= Seq::<Seq<char>>::empty());
        assert(views_of(out@) =~= Seq::<Seq<char>>::empty());
    }
    while i < toks.len()
        invariant
            i <= toks@.len(),
            views_of(out@) == spec_drop_field_codes(views_of(toks@).subrange(0, i as int)),
        decreases toks@.len() - i,
    {
        let t = &toks[i];
        proof {
            let vs = views_of(toks@);
            assert(vs.subrange(0, i as int + 1).drop_last() =~= vs.subrange(0, i as int));
            assert(vs.subrange(0, i as int + 1).last() == toks@[i as int]@);
        }
        let keep: bool = if t.as_str().unicode_len() > 0 {
            t.as_str().get_char(0) != '%'
        } else {
            true
        };
        if keep {
            proof {
                lemma_views_of_push(out@, toks@[i as int]);
            }
            let copy = t.clone();
            proof {
                assert(copy@ == toks@[i as int]@);
            }
            out.push(copy);
        }
        i += 1;
    }
    proof {
        assert(views_of(toks@).subrange(0, toks@.len() as int) =~= views_of(toks@));
    }
    out
}

} // verus!
