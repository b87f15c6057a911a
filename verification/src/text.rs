//! Operations on text, stated over the characters of a string.
use vstd::prelude::*;

verus! {

/// `sep` occurs in `s` starting at position `i`.
pub open spec fn occurs_at(s: Seq<char>, sep: Seq<char>, i: int) -> bool {
    0 <= i && i + sep.len() <= s.len() && s.subrange(i, i + sep.len()) == sep
}

/// The first position at or after `i` where `sep` occurs in `s`, or -1.
pub open spec fn first_match_from(s: Seq<char>, sep: Seq<char>, i: int) -> int
    decreases s.len() + 1 - i,
{
    if i < 0 || i + sep.len() > s.len() {
        -1
    } else if occurs_at(s, sep, i) {
        i
    } else {
        first_match_from(s, sep, i + 1)
    }
}

pub proof fn lemma_first_match_from(s: Seq<char>, sep: Seq<char>, i: int)
    requires
        0 <= i,
    ensures
        first_match_from(s, sep, i) == -1 || (i <= first_match_from(s, sep, i) && occurs_at(
            s,
            sep,
            first_match_from(s, sep, i),
        )),
        forall|j: int| i <= j && (first_match_from(s, sep, i) == -1 || j < first_match_from(s, sep, i)) ==> !occurs_at(s, sep, j),
    decreases s.len() + 1 - i,
{
    if i + sep.len() > s.len() {
    } else if occurs_at(s, sep, i) {
    } else {
        lemma_first_match_from(s, sep, i + 1);
    }
}

/// The pieces of `s` between the occurrences of `sep`, found from left to
/// right without overlap: the part before the leftmost occurrence, then
/// the pieces of what follows it. With no occurrence, `s` is one piece.
pub open spec fn split_on(s: Seq<char>, sep: Seq<char>) -> Seq<Seq<char>>
    decreases s.len(),
    when sep.len() > 0
{
    let k = first_match_from(s, sep, 0);
    if k < 0 {
        seq![s]
    } else {
        proof {
            lemma_first_match_from(s, sep, 0);
        }
        seq![s.take(k)] + split_on(s.skip(k + sep.len()), sep)
    }
}

/// The pieces joined back together with the separator between them.
pub open spec fn join_with(pieces: Seq<Seq<char>>, sep: Seq<char>) -> Seq<char>
    decreases pieces.len(),
{
    if pieces.len() == 0 {
        Seq::empty()
    } else if pieces.len() == 1 {
        pieces[0]
    } else {
        pieces[0] + sep + join_with(pieces.drop_first(), sep)
    }
}

/// Splitting loses nothing: joining the pieces with the separator gives
/// back the text, and no piece contains the separator.
pub proof fn lemma_split_join(s: Seq<char>, sep: Seq<char>)
    requires
        sep.len() > 0,
    ensures
        join_with(split_on(s, sep), sep) == s,
        split_on(s, sep).len() >= 1,
        forall|p: int, j: int| 0 <= p < split_on(s, sep).len() ==> !(#[trigger] occurs_at(split_on(s, sep)[p], sep, j)),
    decreases s.len(),
{
    let k = first_match_from(s, sep, 0);
    lemma_first_match_from(s, sep, 0);
    if k < 0 {
        assert(split_on(s, sep) == seq![s]);
        assert forall|p: int, j: int| 0 <= p < split_on(s, sep).len() implies !(#[trigger] occurs_at(split_on(s, sep)[p], sep, j)) by {
            if occurs_at(s, sep, j) {
                assert(!occurs_at(s, sep, j));
            }
        }
    } else {
        let rest = s.skip(k + sep.len());
        lemma_split_join(rest, sep);
        let pieces = split_on(s, sep);
        assert(pieces == seq![s.take(k)] + split_on(rest, sep));
        assert(pieces.drop_first() =~= split_on(rest, sep));
        assert(s.subrange(k, k + sep.len()) == sep);
        assert(s =~= s.take(k) + sep + rest);
        assert forall|p: int, j: int| 0 <= p < pieces.len() implies !(#[trigger] occurs_at(pieces[p], sep, j)) by {
            if p == 0 {
                if occurs_at(s.take(k), sep, j) {
                    assert(s.take(k).subrange(j, j + sep.len()) =~= s.subrange(j, j + sep.len()));
                    assert(occurs_at(s, sep, j));
                }
            } else {
                assert(pieces[p] == split_on(rest, sep)[p - 1]);
            }
        }
    }
}

/// The characters of a string, in an indexable vector.
pub fn chars_of(s: &str) -> (r: Vec<char>)
    ensures
        r@ == s@,
{
    let mut out: Vec<char> = Vec::new();
    for c in it: s.chars()
        invariant
            it.seq() == s@,
            out@ == it.seq().take(it.index() as int),
    {
        assert(it.seq().take(it.index() + 1) =~= it.seq().take(it.index() as int).push(c));
        out.push(c);
    }
    assert(out@ =~= s@);
    out
}

fn occurs_here(s: &Vec<char>, sep: &Vec<char>, i: usize) -> (r: bool)
    requires
        i + sep@.len() <= s@.len(),
    ensures
        r == occurs_at(s@, sep@, i as int),
{
    let len = s.len();
    let mut k: usize = 0;
    while k < sep.len()
        invariant
            i + sep@.len() <= s@.len(),
            len == s@.len(),
            0 <= k <= sep@.len(),
            forall|j: int| 0 <= j < k ==> s@[i + j] == sep@[j],
        decreases sep@.len() - k,
    {
        if s[i + k] != sep[k] {
            assert(s@.subrange(i as int, i + sep@.len())[k as int] != sep@[k as int]);
            return false;
        }
        k = k + 1;
    }
    assert(s@.subrange(i as int, i + sep@.len()) =~= sep@);
    true
}

pub open spec fn views(v: Seq<String>) -> Seq<Seq<char>> {
    v.map_values(|p: String| p@)
}

proof fn lemma_skip_occurs(s: Seq<char>, sep: Seq<char>, st: int, j: int)
    requires
        0 <= st <= s.len(),
        0 <= j,
    ensures
        occurs_at(s.skip(st), sep, j) == occurs_at(s, sep, st + j),
{
    if st + j + sep.len() <= s.len() {
        assert(s.skip(st).subrange(j, j + sep.len()) =~= s.subrange(st + j, st + j + sep.len()));
    }
}

/// `s` cut into the pieces between the occurrences of `sep`
/// (as `str::split` with a string pattern does).
pub fn split_str(s: &str, sep: &str) -> (r: Vec<String>)
    requires
        sep@.len() > 0,
    ensures
        views(r@) == split_on(s@, sep@),
{
    let cs = chars_of(s);
    let ps = chars_of(sep);
    let n = cs.len();
    let m = ps.len();
    let mut pieces: Vec<String> = Vec::new();
    let mut start: usize = 0;
    let mut i: usize = 0;
    proof {
        assert(s@.skip(0) =~= s@);
    }
    while m <= n && i <= n - m
        invariant
            cs@ == s@,
            ps@ == sep@,
            n == s@.len(),
            m == sep@.len(),
            m > 0,
            0 <= start <= i <= n,
            split_on(s@, sep@) == views(pieces@) + split_on(s@.skip(start as int), sep@),
            forall|j: int| start <= j < i ==> !occurs_at(s@, sep@, j),
        decreases n - i,
    {
        if occurs_here(&cs, &ps, i) {
            let ghost rest = s@.skip(start as int);
            proof {
                lemma_first_match_from(rest, sep@, 0);
                let k = first_match_from(rest, sep@, 0);
                lemma_skip_occurs(s@, sep@, start as int, (i - start) as int);
                if k == -1 || k > i - start {
                    assert(!occurs_at(rest, sep@, (i - start) as int));
                }
                if 0 <= k < i - start {
                    lemma_skip_occurs(s@, sep@, start as int, k);
                }
                assert(k == i - start);
                assert(split_on(rest, sep@) == seq![rest.take(k)] + split_on(rest.skip(k + m), sep@));
                assert(rest.take(k) =~= s@.subrange(start as int, i as int));
                assert(rest.skip(k + m) =~= s@.skip(i + m));
            }
            let piece = s.substring_char(start, i).to_owned();
            let ghost before = pieces@;
            pieces.push(piece);
            proof {
                assert(views(pieces@) =~= views(before).push(s@.subrange(start as int, i as int)));
            }
            start = i + m;
            i = i + m;
        } else {
            i = i + 1;
        }
    }
    proof {
        let rest = s@.skip(start as int);
        lemma_first_match_from(rest, sep@, 0);
        let k = first_match_from(rest, sep@, 0);
        if k >= 0 {
            lemma_skip_occurs(s@, sep@, start as int, k);
            assert(false);
        }
        assert(split_on(rest, sep@) == seq![rest]);
        assert(rest =~= s@.subrange(start as int, n as int));
    }
    let piece = s.substring_char(start, n).to_owned();
    let ghost before = pieces@;
    pieces.push(piece);
    proof {
        assert(views(pieces@) =~= views(before).push(s@.subrange(start as int, n as int)));
    }
    pieces
}

} // verus!

verus! {

/// Whether two strings have the same characters.
pub fn str_eq(a: &str, b: &str) -> (r: bool)
    ensures
        r == (a@ == b@),
{
    let x = chars_of(a);
    let y = chars_of(b);
    if x.len() != y.len() {
        return false;
    }
    let mut i: usize = 0;
    while i < x.len()
        invariant
            x@ == a@,
            y@ == b@,
            x@.len() == y@.len(),
            0 <= i <= x@.len(),
            forall|j: int| 0 <= j < i ==> x@[j] == y@[j],
        decreases x@.len() - i,
    {
        if x[i] != y[i] {
            return false;
        }
        i = i + 1;
    }
    assert(a@ =~= b@);
    true
}

} // verus!

verus! {

/// `pat` occurs somewhere in `s`.
pub open spec fn contains_seq(s: Seq<char>, pat: Seq<char>) -> bool {
    exists|i: int| occurs_at(s, pat, i)
}

/// Whether `pat` occurs in `s` (as `str::contains` with a string pattern).
pub fn str_contains(s: &str, pat: &str) -> (r: bool)
    ensures
        r == contains_seq(s@, pat@),
{
    let cs = chars_of(s);
    let ps = chars_of(pat);
    let n = cs.len();
    let m = ps.len();
    if m > n {
        assert forall|i: int| !occurs_at(s@, pat@, i) by {}
        return false;
    }
    if m == 0 {
        assert(s@.subrange(0, 0) =~= pat@);
        assert(occurs_at(s@, pat@, 0));
        return true;
    }
    let mut i: usize = 0;
    while i <= n - m
        invariant
            cs@ == s@,
            ps@ == pat@,
            n == s@.len(),
            m == pat@.len(),
            1 <= m <= n,
            0 <= i <= n - m + 1,
            forall|j: int| 0 <= j < i ==> !occurs_at(s@, pat@, j),
        decreases n - m + 1 - i,
    {
        if occurs_here(&cs, &ps, i) {
            return true;
        }
        i = i + 1;
    }
    assert forall|j: int| !occurs_at(s@, pat@, j) by {
        if 0 <= j < i {
        }
    }
    false
}

} // verus!

verus! {

/// A copy of a list of strings.
pub fn clone_strings(v: &Vec<String>) -> (r: Vec<String>)
    ensures
        views(r@) == views(v@),
{
    let mut out: Vec<String> = Vec::new();
    let mut i: usize = 0;
    while i < v.len()
        invariant
            0 <= i <= v@.len(),
            out@.len() == i,
            forall|j: int| 0 <= j < i ==> (#[trigger] out@[j])@ == v@[j]@,
        decreases v@.len() - i,
    {
        out.push(v[i].clone());
        i = i + 1;
    }
    assert(views(out@) =~= views(v@));
    out
}

/// `a` followed by `b`, as a new string.
pub fn concat(a: &str, b: &str) -> (r: String)
    ensures
        r@ == a@ + b@,
{
    let mut s = String::from_str(a);
    s.append(b);
    s
}

} // verus!
