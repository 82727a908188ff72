//! Pattern tests on character sequences: prefix, infix, and removal of
//! every occurrence of a pattern. The orchestrator routes subtasks and
//! classifies failures with these, so each executable function here is
//! proved equal to a specification over `Seq<char>`.

use vstd::prelude::*;
use vstd::std_specs::iter::IteratorSpec;
use vstd::string::*;

verus! {

/// `p` is an initial segment of `s`.
pub open spec fn has_prefix(s: Seq<char>, p: Seq<char>) -> bool {
    p.len() <= s.len() && s.subrange(0, p.len() as int) == p
}

/// `p` stands in `s` at offset `i`.
pub open spec fn occurs_at(s: Seq<char>, p: Seq<char>, i: int) -> bool {
    0 <= i && i + p.len() <= s.len() && s.subrange(i, i + p.len()) == p
}

/// `p` stands somewhere in `s`.
pub open spec fn has_infix(s: Seq<char>, p: Seq<char>) -> bool {
    exists|i: int| occurs_at(s, p, i)
}

/// The character sequences that a sequence of strings holds, in order.
pub open spec fn texts(items: Seq<String>) -> Seq<Seq<char>> {
    Seq::new(items.len(), |i: int| items[i]@)
}

/// `s` with every occurrence of `p` taken out. Occurrences are found from
/// left to right and do not overlap: after one is removed the scan resumes
/// behind it. An empty `p` removes nothing.
pub open spec fn strip_all(s: Seq<char>, p: Seq<char>) -> Seq<char>
    decreases s.len(),
{
    if p.len() == 0 || s.len() < p.len() {
        s
    } else if occurs_at(s, p, 0) {
        strip_all(s.skip(p.len() as int), p)
    } else {
        seq![s[0]] + strip_all(s.skip(1), p)
    }
}

/// An occurrence in a suffix of `s` is an occurrence in `s`, shifted.
pub proof fn lemma_occurs_at_skip(s: Seq<char>, p: Seq<char>, i: int)
    requires
        0 <= i <= s.len(),
    ensures
        occurs_at(s.skip(i), p, 0) == occurs_at(s, p, i),
{
    if i + p.len() <= s.len() {
        assert(s.skip(i).subrange(0, p.len() as int) =~= s.subrange(i, i + p.len()));
    }
}

/// A text in which the pattern does not occur is left as it is.
pub proof fn lemma_strip_all_absent(s: Seq<char>, p: Seq<char>)
    requires
        !has_infix(s, p),
    ensures
        strip_all(s, p) == s,
    decreases s.len(),
{
    if p.len() == 0 || s.len() < p.len() {
    } else {
        assert(!occurs_at(s, p, 0));
        let rest = s.skip(1);
        assert forall|i: int| !occurs_at(rest, p, i) by {
            if occurs_at(rest, p, i) {
                assert(rest.subrange(i, i + p.len()) =~= s.subrange(i + 1, i + 1 + p.len()));
                assert(occurs_at(s, p, i + 1));
            }
        }
        lemma_strip_all_absent(rest, p);
        assert(seq![s[0]] + rest =~= s);
    }
}

/// The characters of `s`, in order.
pub fn chars_of(s: &str) -> (v: Vec<char>)
    ensures
        v@ == s@,
{
    let mut it = s.chars();
    let mut v: Vec<char> = Vec::new();
    loop
        invariant
            v@ + it.remaining() == s@,
            it.decrease() is Some,
        ensures
            v@ == s@,
        decreases it.decrease()->0,
    {
        match it.next() {
            Some(c) => {
                v.push(c);
            },
            None => {
                break ;
            },
        }
    }
    v
}

/// Whether `needle` stands in `hay` at offset `at`.
pub fn matches_at(hay: &Vec<char>, needle: &Vec<char>, at: usize) -> (found: bool)
    ensures
        found == occurs_at(hay@, needle@, at as int),
{
    let n: usize = hay.len();
    let m: usize = needle.len();
    if m > n || at > n - m {
        return false;
    }
    let mut j: usize = 0;
    while j < m
        invariant
            n == hay.len(),
            m == needle.len(),
            at + m <= n,
            j <= m,
            forall|k: int| 0 <= k < j ==> hay@[at + k] == needle@[k],
        decreases m - j,
    {
        if hay[at + j] != needle[j] {
            proof {
                let window = hay@.subrange(at as int, at + m);
                assert(window[j as int] == hay@[at + j]);
            }
            return false;
        }
        j = j + 1;
    }
    assert(hay@.subrange(at as int, at + m) =~= needle@);
    true
}

/// The first offset at or after `from` at which `needle` stands in `hay`.
pub fn find_from(hay: &Vec<char>, needle: &Vec<char>, from: usize) -> (hit: Option<usize>)
    ensures
        match hit {
            Some(i) => from <= i && occurs_at(hay@, needle@, i as int) && forall|k: int|
                from <= k < i ==> !occurs_at(hay@, needle@, k),
            None => forall|k: int| from <= k ==> !occurs_at(hay@, needle@, k),
        },
{
    let n: usize = hay.len();
    let m: usize = needle.len();
    if m > n || from > n - m {
        return None;
    }
    let last: usize = n - m;
    let mut i: usize = from;
    loop
        invariant
            n == hay.len(),
            m == needle.len(),
            m <= n,
            last == n - m,
            from <= i <= last,
            forall|k: int| from <= k < i ==> !occurs_at(hay@, needle@, k),
        decreases last - i,
    {
        if matches_at(hay, needle, i) {
            return Some(i);
        }
        if i == last {
            return None;
        }
        i = i + 1;
    }
}

/// Whether `a` and `b` hold the same characters.
pub fn same_text(a: &str, b: &str) -> (same: bool)
    ensures
        same == (a@ == b@),
{
    let left = chars_of(a);
    let right = chars_of(b);
    if left.len() != right.len() {
        return false;
    }
    let same = matches_at(&left, &right, 0);
    assert(a@.subrange(0, a@.len() as int) =~= a@);
    same
}

/// Whether `s` begins with `p`.
pub fn starts_with(s: &str, p: &str) -> (found: bool)
    ensures
        found == has_prefix(s@, p@),
{
    let hay = chars_of(s);
    let needle = chars_of(p);
    matches_at(&hay, &needle, 0)
}

/// Whether `p` stands somewhere in `s`.
pub fn includes(s: &str, p: &str) -> (found: bool)
    ensures
        found == has_infix(s@, p@),
{
    let hay = chars_of(s);
    let needle = chars_of(p);
    find_from(&hay, &needle, 0).is_some()
}

/// `a` followed by `b`.
pub fn join(a: &str, b: &str) -> (joined: String)
    ensures
        joined@ == a@ + b@,
{
    let mut joined = a.to_owned();
    joined.append(b);
    joined
}

/// `s` with every occurrence of `p` taken out.
pub fn remove_all(s: &str, p: &str) -> (out: String)
    ensures
        out@ == strip_all(s@, p@),
{
    let hay = chars_of(s);
    let pat = chars_of(p);
    let n: usize = hay.len();
    let m: usize = pat.len();
    if m == 0 || n < m {
        return s.to_owned();
    }
    let mut out = String::new();
    let mut kept_from: usize = 0;
    let mut i: usize = 0;
    proof {
        assert(s@.skip(0) =~= s@);
        assert(out@ + s@.subrange(0, 0) =~= Seq::<char>::empty());
        assert(Seq::<char>::empty() + strip_all(s@, p@) =~= strip_all(s@, p@));
    }
    while i <= n - m
        invariant
            hay@ == s@,
            pat@ == p@,
            n == hay.len(),
            m == pat.len(),
            0 < m <= n,
            kept_from <= i <= n,
            strip_all(s@, p@) == out@ + s@.subrange(kept_from as int, i as int) + strip_all(
                s@.skip(i as int),
                p@,
            ),
        decreases n - i,
    {
        let ghost rest = s@.skip(i as int);
        proof {
            lemma_occurs_at_skip(s@, p@, i as int);
        }
        if matches_at(&hay, &pat, i) {
            out.append(s.substring_char(kept_from, i));
            proof {
                assert(rest.skip(m as int) =~= s@.skip(i + m));
                assert(s@.subrange(i + m, i + m) =~= Seq::<char>::empty());
            }
            i = i + m;
            kept_from = i;
        } else {
            proof {
                assert(rest.skip(1) =~= s@.skip(i + 1));
                assert(s@.subrange(kept_from as int, i as int) + seq![rest[0]] =~= s@.subrange(
                    kept_from as int,
                    i + 1,
                ));
            }
            i = i + 1;
        }
    }
    out.append(s.substring_char(kept_from, n));
    proof {
        assert(s@.subrange(kept_from as int, i as int) + s@.skip(i as int) =~= s@.subrange(
            kept_from as int,
            n as int,
        ));
    }
    out
}

} // verus!
