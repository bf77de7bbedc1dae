//! Lexicographic order on character sequences — the order in which Rust
//! compares `String`s, since comparing UTF-8 bytes orders by code point — and
//! sorted, duplicate-free vectors kept in that order.

use vstd::prelude::*;
use crate::strings::chars_of;

verus! {

/// `a` sorts strictly before `b`, character by character, a proper prefix
/// sorting first.
pub open spec fn lex_lt(a: Seq<char>, b: Seq<char>) -> bool
    decreases a.len(),
{
    if a.len() == 0 {
        b.len() > 0
    } else if b.len() == 0 {
        false
    } else if a[0] != b[0] {
        (a[0] as int) < (b[0] as int)
    } else {
        lex_lt(a.drop_first(), b.drop_first())
    }
}

pub proof fn lemma_lex_irreflexive(a: Seq<char>)
    ensures
        !lex_lt(a, a),
    decreases a.len(),
{
    if a.len() > 0 {
        lemma_lex_irreflexive(a.drop_first());
    }
}

pub proof fn lemma_lex_asymmetric(a: Seq<char>, b: Seq<char>)
    ensures
        !(lex_lt(a, b) && lex_lt(b, a)),
    decreases a.len(),
{
    if a.len() > 0 && b.len() > 0 && a[0] == b[0] {
        lemma_lex_asymmetric(a.drop_first(), b.drop_first());
    }
}

pub proof fn lemma_lex_transitive(a: Seq<char>, b: Seq<char>, c: Seq<char>)
    requires
        lex_lt(a, b),
        lex_lt(b, c),
    ensures
        lex_lt(a, c),
    decreases a.len(),
{
    if a.len() > 0 && b.len() > 0 && c.len() > 0 {
        if a[0] == b[0] && b[0] == c[0] {
            lemma_lex_transitive(a.drop_first(), b.drop_first(), c.drop_first());
        }
    }
}

pub proof fn lemma_lex_total(a: Seq<char>, b: Seq<char>)
    ensures
        a == b || lex_lt(a, b) || lex_lt(b, a),
    decreases a.len(),
{
    if a.len() > 0 && b.len() > 0 {
        if a[0] == b[0] {
            lemma_lex_total(a.drop_first(), b.drop_first());
            if a.drop_first() == b.drop_first() {
                assert(a =~= seq![a[0]] + a.drop_first());
                assert(b =~= seq![b[0]] + b.drop_first());
            }
        } else {
            assert((a[0] as int) != (b[0] as int));
        }
    } else if a.len() == 0 && b.len() == 0 {
        assert(a =~= b);
    }
}

/// -1, 0 or 1 as `a` sorts before, equal to or after `b`.
pub open spec fn lex_sign(a: Seq<char>, b: Seq<char>) -> int {
    if a == b { 0 } else if lex_lt(a, b) { -1 } else { 1 }
}

/// Compares two character vectors lexicographically.
pub fn compare_chars(a: &Vec<char>, b: &Vec<char>) -> (r: i8)
    ensures
        r == lex_sign(a@, b@),
{
    let mut i: usize = 0;
    while i < a.len() && i < b.len()
        invariant
            i <= a@.len(),
            i <= b@.len(),
            a@.subrange(0, i as int) == b@.subrange(0, i as int),
        decreases a@.len() - i,
    {
        if a[i] != b[i] {
            proof {
                lemma_lex_skip_common(a@, b@, i as int);
            }
            if a[i] < b[i] {
                return -1;
            } else {
                return 1;
            }
        }
        assert(a@.subrange(0, i + 1) =~= a@.subrange(0, i as int).push(a@[i as int]));
        assert(b@.subrange(0, i + 1) =~= b@.subrange(0, i as int).push(b@[i as int]));
        i += 1;
    }
    proof {
        lemma_lex_skip_common(a@, b@, i as int);
        lemma_lex_irreflexive(a@);
    }
    if a.len() == b.len() {
        assert(a@ =~= a@.subrange(0, i as int));
        assert(b@ =~= b@.subrange(0, i as int));
        0
    } else if a.len() < b.len() {
        -1
    } else {
        proof {
            lemma_lex_asymmetric(a@, b@);
        }
        1
    }
}

/// Two sequences that agree on their first `i` characters compare as their
/// remainders do.
pub proof fn lemma_lex_skip_common(a: Seq<char>, b: Seq<char>, i: int)
    requires
        0 <= i <= a.len(),
        i <= b.len(),
        a.subrange(0, i) == b.subrange(0, i),
    ensures
        lex_lt(a, b) == lex_lt(a.subrange(i, a.len() as int), b.subrange(i, b.len() as int)),
        lex_lt(b, a) == lex_lt(b.subrange(i, b.len() as int), a.subrange(i, a.len() as int)),
        (a == b) == (a.subrange(i, a.len() as int) == b.subrange(i, b.len() as int)),
    decreases i,
{
    if i > 0 {
        assert(a[0] == a.subrange(0, i)[0]);
        assert(b[0] == b.subrange(0, i)[0]);
        assert(a.drop_first().subrange(0, i - 1) =~= a.subrange(0, i).drop_first());
        assert(b.drop_first().subrange(0, i - 1) =~= b.subrange(0, i).drop_first());
        lemma_lex_skip_common(a.drop_first(), b.drop_first(), i - 1);
        assert(a.drop_first().subrange(i - 1, a.len() - 1) =~= a.subrange(i, a.len() as int));
        assert(b.drop_first().subrange(i - 1, b.len() - 1) =~= b.subrange(i, b.len() as int));
        if a.drop_first() == b.drop_first() {
            assert(a =~= seq![a[0]] + a.drop_first());
            assert(b =~= seq![b[0]] + b.drop_first());
        }
    } else {
        assert(a.subrange(0, a.len() as int) =~= a);
        assert(b.subrange(0, b.len() as int) =~= b);
    }
}

/// Compares two strings in Rust's `String` order.
pub fn compare_strings(a: &str, b: &str) -> (r: i8)
    ensures
        r == lex_sign(a@, b@),
{
    let x = chars_of(a);
    let y = chars_of(b);
    compare_chars(&x, &y)
}

/// Strictly increasing in lexicographic order, hence free of duplicates.
pub open spec fn strictly_sorted(s: Seq<Seq<char>>) -> bool {
    forall|i: int, j: int| 0 <= i < j < s.len() ==> lex_lt(#[trigger] s[i], #[trigger] s[j])
}

/// The views of a vector of strings.
pub open spec fn views(v: Seq<String>) -> Seq<Seq<char>> {
    v.map_values(|s: String| s@)
}

/// Binary search of a strictly sorted vector of strings: `Ok(i)` when `s` is
/// at position `i`, otherwise `Err(i)` with `i` the position that keeps the
/// vector sorted once `s` is inserted there.
pub fn search_sorted(v: &Vec<String>, s: &str) -> (r: Result<usize, usize>)
    requires
        strictly_sorted(views(v@)),
    ensures
        r matches Ok(i) ==> i < v@.len() && views(v@)[i as int] == s@,
        r matches Err(i) ==> i <= v@.len()
            && (forall|k: int| 0 <= k < i ==> lex_lt(#[trigger] views(v@)[k], s@))
            && (forall|k: int| i <= k < v@.len() ==> lex_lt(s@, #[trigger] views(v@)[k])),
{
    let mut lo: usize = 0;
    let mut hi: usize = v.len();
    while lo < hi
        invariant
            lo <= hi <= v@.len(),
            strictly_sorted(views(v@)),
            forall|k: int| 0 <= k < lo ==> lex_lt(#[trigger] views(v@)[k], s@),
            forall|k: int| hi <= k < v@.len() ==> lex_lt(s@, #[trigger] views(v@)[k]),
        decreases hi - lo,
    {
        let mid = lo + (hi - lo) / 2;
        let c = compare_strings(v[mid].as_str(), s);
        if c == 0 {
            return Ok(mid);
        } else if c < 0 {
            assert forall|k: int| 0 <= k < mid + 1 implies lex_lt(#[trigger] views(v@)[k], s@) by {
                if k < mid {
                    lemma_lex_transitive(views(v@)[k], views(v@)[mid as int], s@);
                }
            }
            lo = mid + 1;
        } else {
            proof {
                lemma_lex_total(views(v@)[mid as int], s@);
            }
            assert forall|k: int| mid <= k < v@.len() implies lex_lt(s@, #[trigger] views(v@)[k]) by {
                if k > mid {
                    lemma_lex_transitive(s@, views(v@)[mid as int], views(v@)[k]);
                }
            }
            hi = mid;
        }
    }
    Err(lo)
}

/// Inserting `x` at a position that splits the sequence into a part sorting
/// before it and a part sorting after it keeps it strictly sorted, and adds
/// exactly `x` to its elements.
pub proof fn lemma_insert_keeps_sorted(old_v: Seq<Seq<char>>, x: Seq<char>, i: int)
    requires
        0 <= i <= old_v.len(),
        strictly_sorted(old_v),
        forall|k: int| 0 <= k < i ==> lex_lt(#[trigger] old_v[k], x),
        forall|k: int| i <= k < old_v.len() ==> lex_lt(x, #[trigger] old_v[k]),
    ensures
        strictly_sorted(old_v.insert(i, x)),
        old_v.insert(i, x).to_set() == old_v.to_set().insert(x),
{
    let nv = old_v.insert(i, x);
    assert forall|a: int, b: int| 0 <= a < b < nv.len() implies lex_lt(#[trigger] nv[a], #[trigger] nv[b]) by {
        if a < i && b > i {
            lemma_lex_transitive(nv[a], x, nv[b]);
        }
    }
    assert(nv.to_set() =~= old_v.to_set().insert(x)) by {
        assert forall|y: Seq<char>| nv.to_set().contains(y) implies old_v.to_set().insert(x).contains(y) by {
            let k = choose|k: int| 0 <= k < nv.len() && nv[k] == y;
            if k < i {
                assert(old_v[k] == y);
            } else if k > i {
                assert(old_v[k - 1] == y);
            }
        }
        assert forall|y: Seq<char>| old_v.to_set().insert(x).contains(y) implies nv.to_set().contains(y) by {
            if y == x {
                assert(nv[i] == y);
            } else {
                let k = choose|k: int| 0 <= k < old_v.len() && old_v[k] == y;
                if k < i {
                    assert(nv[k] == y);
                } else {
                    assert(nv[k + 1] == y);
                }
            }
        }
    }
}

/// Inserts `s` into a strictly sorted vector unless it is already there.
pub fn insert_sorted_unique(v: &mut Vec<String>, s: String)
    requires
        strictly_sorted(views(old(v)@)),
    ensures
        strictly_sorted(views(final(v)@)),
        views(final(v)@).to_set() == views(old(v)@).to_set().insert(s@),
{
    match search_sorted(v, s.as_str()) {
        Ok(i) => {
            assert(views(v@).to_set().insert(s@) =~= views(v@).to_set());
        },
        Err(i) => {
            let ghost old_v = views(v@);
            proof {
                lemma_insert_keeps_sorted(old_v, s@, i as int);
            }
            v.insert(i, s);
            assert(views(v@) =~= old_v.insert(i as int, s@));
        },
    }
}

/// Pairs compare by their first element, then their second.
pub open spec fn pair_lt(a: (Seq<char>, Seq<char>), b: (Seq<char>, Seq<char>)) -> bool {
    lex_lt(a.0, b.0) || (a.0 == b.0 && lex_lt(a.1, b.1))
}

pub proof fn lemma_pair_transitive(a: (Seq<char>, Seq<char>), b: (Seq<char>, Seq<char>), c: (Seq<char>, Seq<char>))
    requires
        pair_lt(a, b),
        pair_lt(b, c),
    ensures
        pair_lt(a, c),
{
    if lex_lt(a.0, b.0) && lex_lt(b.0, c.0) {
        lemma_lex_transitive(a.0, b.0, c.0);
    } else if lex_lt(a.0, b.0) {
    } else if lex_lt(b.0, c.0) {
    } else {
        lemma_lex_transitive(a.1, b.1, c.1);
    }
}

pub proof fn lemma_pair_total(a: (Seq<char>, Seq<char>), b: (Seq<char>, Seq<char>))
    ensures
        a == b || pair_lt(a, b) || pair_lt(b, a),
        !pair_lt(a, a),
{
    lemma_lex_total(a.0, b.0);
    lemma_lex_total(a.1, b.1);
    lemma_lex_irreflexive(a.0);
    lemma_lex_irreflexive(a.1);
}

pub open spec fn strictly_sorted_pairs(s: Seq<(Seq<char>, Seq<char>)>) -> bool {
    forall|i: int, j: int| 0 <= i < j < s.len() ==> pair_lt(#[trigger] s[i], #[trigger] s[j])
}

pub open spec fn pair_views(v: Seq<(String, String)>) -> Seq<(Seq<char>, Seq<char>)> {
    v.map_values(|p: (String, String)| (p.0@, p.1@))
}

/// Compares two pairs of strings, first elements first.
pub fn compare_pairs(a: &(String, String), b: &(String, String)) -> (r: i8)
    ensures
        r == 0 <==> (a.0@, a.1@) == (b.0@, b.1@),
        r < 0 <==> pair_lt((a.0@, a.1@), (b.0@, b.1@)),
        r > 0 <==> pair_lt((b.0@, b.1@), (a.0@, a.1@)),
{
    proof {
        lemma_pair_total((a.0@, a.1@), (b.0@, b.1@));
        lemma_lex_asymmetric(a.0@, b.0@);
        lemma_lex_asymmetric(a.1@, b.1@);
    }
    let c = compare_strings(a.0.as_str(), b.0.as_str());
    if c != 0 {
        c
    } else {
        compare_strings(a.1.as_str(), b.1.as_str())
    }
}

/// Inserts a pair into a strictly sorted vector of pairs unless it is there.
pub fn insert_sorted_unique_pair(v: &mut Vec<(String, String)>, x: (String, String))
    requires
        strictly_sorted_pairs(pair_views(old(v)@)),
    ensures
        strictly_sorted_pairs(pair_views(final(v)@)),
        pair_views(final(v)@).to_set() == pair_views(old(v)@).to_set().insert((x.0@, x.1@)),
{
    let ghost xv = (x.0@, x.1@);
    let ghost old_v = pair_views(v@);
    let mut lo: usize = 0;
    let mut hi: usize = v.len();
    while lo < hi
        invariant
            lo <= hi <= v@.len(),
            v@ == old(v)@,
            old_v == pair_views(v@),
            xv == (x.0@, x.1@),
            strictly_sorted_pairs(old_v),
            forall|k: int| 0 <= k < lo ==> pair_lt(#[trigger] old_v[k], xv),
            forall|k: int| hi <= k < v@.len() ==> pair_lt(xv, #[trigger] old_v[k]),
        decreases hi - lo,
    {
        let mid = lo + (hi - lo) / 2;
        let c = compare_pairs(&v[mid], &x);
        assert(old_v[mid as int] == (v@[mid as int].0@, v@[mid as int].1@));
        if c == 0 {
            assert(old_v.to_set().insert(xv) =~= old_v.to_set());
            return;
        } else if c < 0 {
            assert forall|k: int| 0 <= k < mid + 1 implies pair_lt(#[trigger] old_v[k], xv) by {
                if k < mid {
                    lemma_pair_transitive(old_v[k], old_v[mid as int], xv);
                }
            }
            lo = mid + 1;
        } else {
            assert forall|k: int| mid <= k < v@.len() implies pair_lt(xv, #[trigger] old_v[k]) by {
                if k > mid {
                    lemma_pair_transitive(xv, old_v[mid as int], old_v[k]);
                }
            }
            hi = mid;
        }
    }
    let i = lo;
    v.insert(i, x);
    let ghost nv = pair_views(v@);
    assert(nv =~= old_v.insert(i as int, xv));
    assert forall|a: int, b: int| 0 <= a < b < nv.len() implies pair_lt(#[trigger] nv[a], #[trigger] nv[b]) by {
        if a < i && b > i {
            lemma_pair_transitive(nv[a], xv, nv[b]);
        }
    }
    assert(nv.to_set() =~= old_v.to_set().insert(xv)) by {
        assert forall|y: (Seq<char>, Seq<char>)| nv.to_set().contains(y) implies old_v.to_set().insert(xv).contains(y) by {
            let k = choose|k: int| 0 <= k < nv.len() && nv[k] == y;
            if k < i {
                assert(old_v[k] == y);
            } else if k > i {
                assert(old_v[k - 1] == y);
            }
        }
        assert forall|y: (Seq<char>, Seq<char>)| old_v.to_set().insert(xv).contains(y) implies nv.to_set().contains(y) by {
            if y == xv {
                assert(nv[i as int] == y);
            } else {
                let k = choose|k: int| 0 <= k < old_v.len() && old_v[k] == y;
                if k < i {
                    assert(nv[k] == y);
                } else {
                    assert(nv[k + 1] == y);
                }
            }
        }
    }
}

/// The strictly sorted sequence holding exactly the elements of `s`.
pub open spec fn sorted_of(s: Set<Seq<char>>) -> Seq<Seq<char>> {
    choose|q: Seq<Seq<char>>| strictly_sorted(q) && q.to_set() == s
}

/// Two strictly sorted sequences with the same elements are the same.
pub proof fn lemma_sorted_unique(a: Seq<Seq<char>>, b: Seq<Seq<char>>)
    requires
        strictly_sorted(a),
        strictly_sorted(b),
        a.to_set() == b.to_set(),
    ensures
        a == b,
    decreases a.len(),
{
    if a.len() == 0 {
        if b.len() > 0 {
            assert(b.to_set().contains(b[0]));
        }
        assert(a =~= b);
    } else {
        assert(a.to_set().contains(a[0]));
        assert(b.len() > 0);
        assert(b.to_set().contains(b[0]));
        let j = choose|j: int| 0 <= j < b.len() && b[j] == a[0];
        let i = choose|i: int| 0 <= i < a.len() && a[i] == b[0];
        if j > 0 {
            if i > 0 {
                lemma_lex_asymmetric(a[0], b[0]);
            } else {
                lemma_lex_irreflexive(a[0]);
            }
        }
        assert(a[0] == b[0]);
        let a1 = a.drop_first();
        let b1 = b.drop_first();
        assert(a1.to_set() =~= b1.to_set()) by {
            assert forall|x: Seq<char>| a1.to_set().contains(x) implies b1.to_set().contains(x) by {
                let k = choose|k: int| 0 <= k < a1.len() && a1[k] == x;
                assert(a.to_set().contains(a[k + 1]));
                let m = choose|m: int| 0 <= m < b.len() && b[m] == x;
                if m == 0 {
                    lemma_lex_irreflexive(x);
                }
                assert(b1[m - 1] == x);
            }
            assert forall|x: Seq<char>| b1.to_set().contains(x) implies a1.to_set().contains(x) by {
                let k = choose|k: int| 0 <= k < b1.len() && b1[k] == x;
                assert(b.to_set().contains(b[k + 1]));
                let m = choose|m: int| 0 <= m < a.len() && a[m] == x;
                if m == 0 {
                    lemma_lex_irreflexive(x);
                }
                assert(a1[m - 1] == x);
            }
        }
        assert forall|p: int, q: int| 0 <= p < q < a1.len() implies lex_lt(#[trigger] a1[p], #[trigger] a1[q]) by {
            assert(a1[p] == a[p + 1] && a1[q] == a[q + 1]);
        }
        assert forall|p: int, q: int| 0 <= p < q < b1.len() implies lex_lt(#[trigger] b1[p], #[trigger] b1[q]) by {
            assert(b1[p] == b[p + 1] && b1[q] == b[q + 1]);
        }
        lemma_sorted_unique(a1, b1);
        assert(a =~= b) by {
            assert forall|k: int| 0 <= k < a.len() implies a[k] == b[k] by {
                if k > 0 {
                    assert(a[k] == a1[k - 1]);
                    assert(b[k] == b1[k - 1]);
                }
            }
        }
    }
}

/// A strictly sorted sequence is the sorted listing of its elements.
pub proof fn lemma_sorted_of(q: Seq<Seq<char>>)
    requires
        strictly_sorted(q),
    ensures
        sorted_of(q.to_set()) == q,
{
    let w = sorted_of(q.to_set());
    assert(strictly_sorted(w) && w.to_set() == q.to_set());
    lemma_sorted_unique(w, q);
}

/// Pushing `x` adds just `x` to a sequence's elements.
proof fn lemma_push_to_set(q: Seq<Seq<char>>, x: Seq<char>)
    ensures
        q.push(x).to_set() == q.to_set().insert(x),
{
    let r = q.push(x);
    assert forall|y: Seq<char>| r.to_set().contains(y) <==> q.to_set().insert(x).contains(y) by {
        if r.contains(y) {
            let k = choose|k: int| 0 <= k < r.len() && r[k] == y;
            if k < q.len() {
                assert(q[k] == y);
            }
        }
        if q.to_set().insert(x).contains(y) {
            if y == x {
                assert(r[q.len() as int] == x);
            } else {
                let m = choose|m: int| 0 <= m < q.len() && q[m] == y;
                assert(r[m] == y);
            }
        }
    }
    assert(r.to_set() =~= q.to_set().insert(x));
}

/// A strictly sorted sequence without `x` can take `x` in and stay
/// strictly sorted.
proof fn lemma_sorted_insert_exists(q: Seq<Seq<char>>, x: Seq<char>)
    requires
        strictly_sorted(q),
        !q.contains(x),
    ensures
        exists|r: Seq<Seq<char>>| strictly_sorted(r) && r.to_set() == q.to_set().insert(x),
    decreases q.len(),
{
    if q.len() == 0 {
        let r = seq![x];
        lemma_push_to_set(q, x);
        assert(r =~= q.push(x));
        assert(strictly_sorted(r));
    } else {
        let last = q.last();
        lemma_lex_total(last, x);
        if lex_lt(last, x) {
            let r = q.push(x);
            assert forall|i: int, j: int| 0 <= i < j < r.len() implies lex_lt(#[trigger] r[i], #[trigger] r[j]) by {
                if j == q.len() {
                    if i < q.len() - 1 {
                        lemma_lex_transitive(q[i], last, x);
                    }
                } else {
                    assert(r[i] == q[i] && r[j] == q[j]);
                }
            }
            lemma_push_to_set(q, x);
        } else {
            let p = q.drop_last();
            assert(strictly_sorted(p)) by {
                assert forall|i: int, j: int| 0 <= i < j < p.len() implies lex_lt(#[trigger] p[i], #[trigger] p[j]) by {
                    assert(p[i] == q[i] && p[j] == q[j]);
                }
            }
            assert(!p.contains(x)) by {
                if p.contains(x) {
                    let k = choose|k: int| 0 <= k < p.len() && p[k] == x;
                    assert(q[k] == x);
                }
            }
            lemma_sorted_insert_exists(p, x);
            let r0 = choose|r0: Seq<Seq<char>>| strictly_sorted(r0) && r0.to_set() == p.to_set().insert(x);
            let r = r0.push(last);
            assert forall|i: int, j: int| 0 <= i < j < r.len() implies lex_lt(#[trigger] r[i], #[trigger] r[j]) by {
                if j == r0.len() {
                    assert(r[i] == r0[i]);
                    assert(r0.to_set().contains(r0[i]));
                    if r0[i] != x {
                        assert(p.to_set().contains(r0[i]));
                        let k = choose|k: int| 0 <= k < p.len() && p[k] == r0[i];
                        assert(q[k] == p[k]);
                        assert(q[q.len() - 1] == last);
                    }
                } else {
                    assert(r[i] == r0[i] && r[j] == r0[j]);
                }
            }
            assert(q =~= p.push(last));
            assert(r.to_set() =~= q.to_set().insert(x)) by {
                assert forall|y: Seq<char>| r.to_set().contains(y) <==> q.to_set().insert(x).contains(y) by {
                    if r.contains(y) {
                        let k = choose|k: int| 0 <= k < r.len() && r[k] == y;
                        if k < r0.len() {
                            assert(r0[k] == y);
                            assert(r0.to_set().contains(y));
                            if y != x {
                                assert(p.to_set().contains(y));
                                let m = choose|m: int| 0 <= m < p.len() && p[m] == y;
                                assert(q[m] == y);
                            }
                        } else {
                            assert(q[q.len() - 1] == y);
                        }
                    }
                    if q.to_set().insert(x).contains(y) {
                        if y == x {
                            assert(r0.to_set().contains(x));
                            let k = choose|k: int| 0 <= k < r0.len() && r0[k] == x;
                            assert(r[k] == x);
                        } else {
                            let m = choose|m: int| 0 <= m < q.len() && q[m] == y;
                            if m == q.len() - 1 {
                                assert(r[r0.len() as int] == y);
                            } else {
                                assert(p[m] == y);
                                assert(p.to_set().insert(x).contains(y));
                                let k = choose|k: int| 0 <= k < r0.len() && r0[k] == y;
                                assert(r[k] == y);
                            }
                        }
                    }
                }
            }
        }
    }
}

/// Every finite set of strings has its strictly sorted listing.
pub proof fn lemma_sorted_of_set(s: Set<Seq<char>>)
    requires
        s.finite(),
    ensures
        strictly_sorted(sorted_of(s)),
        sorted_of(s).to_set() == s,
    decreases s.len(),
{
    if s.len() == 0 {
        let q = Seq::<Seq<char>>::empty();
        assert(s =~= Set::empty());
        assert(q.to_set() =~= s);
        assert(strictly_sorted(q));
    } else {
        let x = s.choose();
        let rest = s.remove(x);
        lemma_sorted_of_set(rest);
        let q = sorted_of(rest);
        assert(!q.contains(x)) by {
            if q.contains(x) {
                assert(q.to_set().contains(x));
            }
        }
        lemma_sorted_insert_exists(q, x);
        assert(rest.insert(x) =~= s);
    }
}

/// The strictly sorted sequence holding exactly the pairs of `s`.
pub open spec fn sorted_pairs_of(s: Set<(Seq<char>, Seq<char>)>) -> Seq<(Seq<char>, Seq<char>)> {
    choose|q: Seq<(Seq<char>, Seq<char>)>| strictly_sorted_pairs(q) && q.to_set() == s
}

/// Two strictly sorted sequences of pairs with the same elements are the same.
pub proof fn lemma_sorted_pairs_unique(a: Seq<(Seq<char>, Seq<char>)>, b: Seq<(Seq<char>, Seq<char>)>)
    requires
        strictly_sorted_pairs(a),
        strictly_sorted_pairs(b),
        a.to_set() == b.to_set(),
    ensures
        a == b,
    decreases a.len(),
{
    if a.len() == 0 {
        if b.len() > 0 {
            assert(b.to_set().contains(b[0]));
        }
        assert(a =~= b);
    } else {
        assert(a.to_set().contains(a[0]));
        assert(b.len() > 0);
        assert(b.to_set().contains(b[0]));
        let j = choose|j: int| 0 <= j < b.len() && b[j] == a[0];
        let i = choose|i: int| 0 <= i < a.len() && a[i] == b[0];
        if j > 0 {
            lemma_pair_total(a[0], b[0]);
            lemma_pair_total(b[0], a[0]);
            if i > 0 {
                assert(pair_lt(a[0], b[0]));
                assert(pair_lt(b[0], a[0]));
                lemma_pair_transitive(a[0], b[0], a[0]);
            }
        }
        assert(a[0] == b[0]);
        let a1 = a.drop_first();
        let b1 = b.drop_first();
        assert(a1.to_set() =~= b1.to_set()) by {
            assert forall|x: (Seq<char>, Seq<char>)| a1.to_set().contains(x) implies b1.to_set().contains(x) by {
                let k = choose|k: int| 0 <= k < a1.len() && a1[k] == x;
                assert(a.to_set().contains(a[k + 1]));
                let m = choose|m: int| 0 <= m < b.len() && b[m] == x;
                if m == 0 {
                    lemma_pair_total(x, x);
                }
                assert(b1[m - 1] == x);
            }
            assert forall|x: (Seq<char>, Seq<char>)| b1.to_set().contains(x) implies a1.to_set().contains(x) by {
                let k = choose|k: int| 0 <= k < b1.len() && b1[k] == x;
                assert(b.to_set().contains(b[k + 1]));
                let m = choose|m: int| 0 <= m < a.len() && a[m] == x;
                if m == 0 {
                    lemma_pair_total(x, x);
                }
                assert(a1[m - 1] == x);
            }
        }
        assert forall|p: int, q: int| 0 <= p < q < a1.len() implies pair_lt(#[trigger] a1[p], #[trigger] a1[q]) by {
            assert(a1[p] == a[p + 1] && a1[q] == a[q + 1]);
        }
        assert forall|p: int, q: int| 0 <= p < q < b1.len() implies pair_lt(#[trigger] b1[p], #[trigger] b1[q]) by {
            assert(b1[p] == b[p + 1] && b1[q] == b[q + 1]);
        }
        lemma_sorted_pairs_unique(a1, b1);
        assert(a =~= b) by {
            assert forall|k: int| 0 <= k < a.len() implies a[k] == b[k] by {
                if k > 0 {
                    assert(a[k] == a1[k - 1]);
                    assert(b[k] == b1[k - 1]);
                }
            }
        }
    }
}

pub proof fn lemma_sorted_pairs_of(q: Seq<(Seq<char>, Seq<char>)>)
    requires
        strictly_sorted_pairs(q),
    ensures
        sorted_pairs_of(q.to_set()) == q,
{
    let w = sorted_pairs_of(q.to_set());
    assert(strictly_sorted_pairs(w) && w.to_set() == q.to_set());
    lemma_sorted_pairs_unique(w, q);
}

} // verus!
