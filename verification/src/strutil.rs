//! Verified string predicates and searches used by the installer logic:
//! prefix tests, substring search, and equality over `Seq<char>` views.

use vstd::prelude::*;
use vstd::string::*;

verus! {

/// `p` is a prefix of `s`.
pub open spec fn seq_starts_with(s: Seq<char>, p: Seq<char>) -> bool {
    p.len() <= s.len() && p == s.subrange(0, p.len() as int)
}

/// `sub` occurs in `s` at position `i`.
pub open spec fn seq_contains_at(s: Seq<char>, sub: Seq<char>, i: int) -> bool {
    0 <= i && i + sub.len() <= s.len() && sub == s.subrange(i, i + sub.len())
}

/// `sub` occurs somewhere in `s`.
pub open spec fn seq_contains(s: Seq<char>, sub: Seq<char>) -> bool {
    exists|i: int| seq_contains_at(s, sub, i)
}

/// Whether `sub` occurs in `s` at position `i`.
pub fn match_at(s: &str, sub: &str, i: usize) -> (b: bool)
    requires
        i + sub@.len() <= s@.len(),
    ensures
        b == seq_contains_at(s@, sub@, i as int),
{
    let n: usize = sub.unicode_len();
    let ls: usize = s.unicode_len();
    let mut j: usize = 0;
    while j < n
        invariant
            n == sub@.len(),
            ls == s@.len(),
            j <= n,
            i + n <= ls,
            forall|k: int| 0 <= k < j ==> s@[i + k] == sub@[k],
        decreases n - j,
    {
        if s.get_char(i + j) != sub.get_char(j) {
            assert(s@.subrange(i as int, i + sub@.len())[j as int] != sub@[j as int]);
            return false;
        }
        j = j + 1;
    }
    assert(sub@ =~= s@.subrange(i as int, i + sub@.len()));
    true
}

/// Whether `sub` occurs anywhere in `s`.
pub fn str_contains(s: &str, sub: &str) -> (b: bool)
    ensures
        b == seq_contains(s@, sub@),
{
    let ls: usize = s.unicode_len();
    let lsub: usize = sub.unicode_len();
    if lsub > ls {
        assert(forall|i: int| !seq_contains_at(s@, sub@, i));
        return false;
    }
    let bound: usize = ls - lsub;
    let mut i: usize = 0;
    loop
        invariant
            ls == s@.len(),
            lsub == sub@.len(),
            lsub <= ls,
            bound == ls - lsub,
            i <= bound,
            forall|k: int| 0 <= k < i ==> !seq_contains_at(s@, sub@, k),
        decreases bound - i,
    {
        if match_at(s, sub, i) {
            assert(seq_contains_at(s@, sub@, i as int));
            return true;
        }
        if i == bound {
            assert(forall|k: int| seq_contains_at(s@, sub@, k) ==> 0 <= k <= bound);
            return false;
        }
        i = i + 1;
    }
}

/// Whether `s` starts with `p`.
pub fn str_starts_with(s: &str, p: &str) -> (b: bool)
    ensures
        b == seq_starts_with(s@, p@),
{
    let ls: usize = s.unicode_len();
    let lp: usize = p.unicode_len();
    if lp > ls {
        return false;
    }
    match_at(s, p, 0)
}

/// Whether the two strings hold the same characters.
pub fn str_eq(a: &str, b: &str) -> (r: bool)
    ensures
        r == (a@ == b@),
{
    let la: usize = a.unicode_len();
    let lb: usize = b.unicode_len();
    if la != lb {
        return false;
    }
    let mut j: usize = 0;
    while j < la
        invariant
            la == a@.len(),
            la == b@.len(),
            j <= la,
            forall|k: int| 0 <= k < j ==> a@[k] == b@[k],
        decreases la - j,
    {
        if a.get_char(j) != b.get_char(j) {
            return false;
        }
        j = j + 1;
    }
    assert(a@ =~= b@);
    true
}

/// The views of a sequence of strings.
pub open spec fn views_of(v: Seq<String>) -> Seq<Seq<char>> {
    v.map_values(|t: String| t@)
}

/// What splitting `s` on the separator `sep` yields: the runs of characters
/// between occurrences of the separator, in order, kept even when empty.
pub open spec fn split_on(s: Seq<char>, sep: char) -> Seq<Seq<char>>
    decreases s.len(),
{
    if s.len() == 0 {
        seq![Seq::<char>::empty()]
    } else {
        let rest = split_on(s.drop_last(), sep);
        if s.last() == sep {
            rest.push(Seq::<char>::empty())
        } else {
            rest.update(rest.len() - 1, rest.last().push(s.last()))
        }
    }
}

/// Splitting yields at least one run.
pub proof fn lemma_split_on_nonempty(s: Seq<char>, sep: char)
    ensures
        split_on(s, sep).len() >= 1,
    decreases s.len(),
{
    if s.len() > 0 {
        lemma_split_on_nonempty(s.drop_last(), sep);
    }
}

/// Splits `s` at every occurrence of `sep`, keeping empty runs.
pub fn split_str_on(s: &str, sep: char) -> (out: Vec<String>)
    ensures
        views_of(out@) == split_on(s@, sep),
{
    let n: usize = s.unicode_len();
    let mut out: Vec<String> = Vec::new();
    let mut start: usize = 0;
    let mut p: usize = 0;
    proof {
        assert(s@.take(0) =~= Seq::<char>::empty());
        assert(s@.subrange(0, 0) =~= Seq::<char>::empty());
        assert(views_of(out@).push(s@.subrange(0, 0)) =~~= split_on(s@.take(0), sep));
    }
    while p < n
        invariant
            n == s@.len(),
            start <= p <= n,
            split_on(s@.take(p as int), sep) == views_of(out@).push(
                s@.subrange(start as int, p as int),
            ),
        decreases n - p,
    {
        let ghost toks = views_of(out@);
        let ghost cur = s@.subrange(start as int, p as int);
        let c = s.get_char(p);
        proof {
            assert(s@.take(p as int + 1).drop_last() =~= s@.take(p as int));
            assert(s@.take(p as int + 1).last() == s@[p as int]);
        }
        if c == sep {
            let token = String::from_str(s.substring_char(start, p));
            out.push(token);
            start = p + 1;
            proof {
                assert(views_of(out@) =~= toks.push(cur));
                assert(split_on(s@.take(p as int + 1), sep) =~~= views_of(out@).push(
                    s@.subrange(p as int + 1, p as int + 1),
                ));
            }
        } else {
            proof {
                let r = split_on(s@.take(p as int), sep);
                lemma_split_on_nonempty(s@.take(p as int), sep);
                assert(r.last() == cur);
                assert(r.update(r.len() - 1, r.last().push(c)) =~~= toks.push(cur.push(c)));
                assert(cur.push(c) =~= s@.subrange(start as int, p as int + 1));
            }
        }
        p = p + 1;
    }
    let token = String::from_str(s.substring_char(start, p));
    out.push(token);
    proof {
        assert(s@.take(n as int) =~= s@);
        assert(views_of(out@) =~~= split_on(s@, sep));
    }
    out
}

/// A whitespace character, as field splitting understands it.
pub open spec fn is_ws(c: char) -> bool {
    c == ' ' || c == '\t' || c == '\n' || c == '\r'
}

/// The whitespace-separated fields of `s`, in order: maximal runs of
/// non-whitespace characters, with any run of whitespace separating them.
pub open spec fn fields_of(s: Seq<char>) -> Seq<Seq<char>>
    decreases s.len(),
{
    if s.len() == 0 {
        Seq::<Seq<char>>::empty()
    } else {
        let rest = fields_of(s.drop_last());
        let c = s.last();
        if is_ws(c) {
            rest
        } else if s.len() >= 2 && !is_ws(s[s.len() - 2]) {
            rest.update(rest.len() - 1, rest.last().push(c))
        } else {
            rest.push(seq![c])
        }
    }
}

/// Splits `s` into its whitespace-separated fields.
pub fn str_fields(s: &str) -> (out: Vec<String>)
    ensures
        views_of(out@) == fields_of(s@),
{
    let n: usize = s.unicode_len();
    let mut out: Vec<String> = Vec::new();
    let mut start: usize = 0;
    let mut in_field: bool = false;
    let mut p: usize = 0;
    proof {
        assert(s@.take(0) =~= Seq::<char>::empty());
        assert(views_of(out@) =~~= fields_of(s@.take(0)));
    }
    while p < n
        invariant
            n == s@.len(),
            p <= n,
            in_field ==> start < p,
            in_field ==> forall|k: int| start <= k < p ==> !is_ws(s@[k]),
            !in_field ==> (p == 0 || is_ws(s@[p - 1])),
            in_field ==> fields_of(s@.take(p as int)) == views_of(out@).push(
                s@.subrange(start as int, p as int),
            ),
            !in_field ==> fields_of(s@.take(p as int)) == views_of(out@),
        decreases n - p,
    {
        let ghost toks = views_of(out@);
        let c = s.get_char(p);
        proof {
            assert(s@.take(p as int + 1).drop_last() =~= s@.take(p as int));
            assert(s@.take(p as int + 1).last() == s@[p as int]);
        }
        if c == ' ' || c == '\t' || c == '\n' || c == '\r' {
            if in_field {
                let token = String::from_str(s.substring_char(start, p));
                out.push(token);
                in_field = false;
                proof {
                    assert(views_of(out@) =~= toks.push(s@.subrange(start as int, p as int)));
                }
            }
        } else {
            if in_field {
                proof {
                    let r = fields_of(s@.take(p as int));
                    let cur = s@.subrange(start as int, p as int);
                    assert(!is_ws(s@[p as int - 1]));
                    assert(s@.take(p as int + 1)[p as int - 1] == s@[p as int - 1]);
                    assert(r.last() == cur);
                    assert(r.update(r.len() - 1, r.last().push(c)) =~~= toks.push(cur.push(c)));
                    assert(cur.push(c) =~= s@.subrange(start as int, p as int + 1));
                }
            } else {
                start = p;
                in_field = true;
                proof {
                    if p > 0 {
                        assert(is_ws(s@[p as int - 1]));
                        assert(s@.take(p as int + 1)[p as int - 1] == s@[p as int - 1]);
                    }
                    assert(seq![c] =~= s@.subrange(p as int, p as int + 1));
                    assert(fields_of(s@.take(p as int + 1)) =~~= toks.push(
                        s@.subrange(p as int, p as int + 1),
                    ));
                }
            }
        }
        p = p + 1;
    }
    if in_field {
        let token = String::from_str(s.substring_char(start, p));
        out.push(token);
    }
    proof {
        assert(s@.take(n as int) =~= s@);
        assert(views_of(out@) =~~= fields_of(s@));
    }
    out
}

/// The string "latest", compared without regard to ASCII letter case.
pub open spec fn is_latest_spec(s: Seq<char>) -> bool {
    s.len() == 6 && (s[0] == 'l' || s[0] == 'L') && (s[1] == 'a' || s[1] == 'A') && (s[2] == 't'
        || s[2] == 'T') && (s[3] == 'e' || s[3] == 'E') && (s[4] == 's' || s[4] == 'S') && (s[5]
        == 't' || s[5] == 'T')
}

/// Whether `s` spells "latest", ignoring ASCII letter case.
pub fn is_latest(s: &str) -> (b: bool)
    ensures
        b == is_latest_spec(s@),
{
    if s.unicode_len() != 6 {
        return false;
    }
    let c0 = s.get_char(0);
    let c1 = s.get_char(1);
    let c2 = s.get_char(2);
    let c3 = s.get_char(3);
    let c4 = s.get_char(4);
    let c5 = s.get_char(5);
    (c0 == 'l' || c0 == 'L') && (c1 == 'a' || c1 == 'A') && (c2 == 't' || c2 == 'T') && (c3 == 'e'
        || c3 == 'E') && (c4 == 's' || c4 == 'S') && (c5 == 't' || c5 == 'T')
}

} // verus!
