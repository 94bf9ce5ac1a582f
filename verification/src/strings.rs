//! Character-level string utilities: equality, lexicographic order by
//! Unicode scalar value, and splitting/joining on commas. The merger uses
//! these to canonicalize scheduling-node lists.

use vstd::prelude::*;
use vstd::string::*;
use vstd::utf8::char_u32_cast;

verus! {

/// Outcome of a three-way string comparison.
#[derive(Debug, Copy, Clone, PartialEq, Eq, Structural)]
pub enum Cmp {
    Lt,
    Eq,
    Gt,
}

/// Strict lexicographic order on character sequences, comparing characters
/// by their Unicode scalar value. A proper prefix precedes its extensions.
pub open spec fn lex_lt(a: Seq<char>, b: Seq<char>) -> bool
    decreases a.len(),
{
    if b.len() == 0 {
        false
    } else if a.len() == 0 {
        true
    } else if (a[0] as u32) < (b[0] as u32) {
        true
    } else if (a[0] as u32) > (b[0] as u32) {
        false
    } else {
        lex_lt(a.drop_first(), b.drop_first())
    }
}

/// Two characters with the same scalar value are the same character.
pub proof fn lemma_char_eq(a: char, b: char)
    requires
        a as u32 == b as u32,
    ensures
        a == b,
{
    char_u32_cast(a, a as u32);
    char_u32_cast(b, b as u32);
}

/// `lex_lt` is a strict total order: for any two sequences exactly one of
/// `lex_lt(a, b)`, `a == b`, `lex_lt(b, a)` holds.
pub proof fn lemma_lex_trichotomy(a: Seq<char>, b: Seq<char>)
    ensures
        lex_lt(a, b) || lex_lt(b, a) || a == b,
        lex_lt(a, b) ==> !lex_lt(b, a) && a != b,
        lex_lt(b, a) ==> !lex_lt(a, b) && b != a,
    decreases a.len(),
{
    if a.len() == 0 && b.len() == 0 {
        assert(a =~= b);
    } else if a.len() == 0 || b.len() == 0 {
        // one is empty: the empty one is strictly less, and they differ
    } else if a[0] as u32 == b[0] as u32 {
        lemma_char_eq(a[0], b[0]);
        lemma_lex_trichotomy(a.drop_first(), b.drop_first());
        if a.drop_first() == b.drop_first() {
            assert(a.drop_first().len() == a.len() - 1);
            assert(b.drop_first().len() == b.len() - 1);
            assert forall|i: int| 0 <= i < a.len() implies a[i] == b[i] by {
                if i > 0 {
                    assert(a[i] == a.drop_first()[i - 1]);
                    assert(b[i] == b.drop_first()[i - 1]);
                }
            }
            assert(a =~= b);
        }
        if a == b {
            assert(a.drop_first() == b.drop_first());
        }
    } else {
        // heads differ: the order of the heads decides, and a != b
        if a == b {
            assert(a[0] == b[0]);
        }
    }
}

/// `lex_lt` is transitive.
pub proof fn lemma_lex_trans(a: Seq<char>, b: Seq<char>, c: Seq<char>)
    requires
        lex_lt(a, b),
        lex_lt(b, c),
    ensures
        lex_lt(a, c),
    decreases a.len(),
{
    if a.len() == 0 {
        // lex_lt(b, c) forces c nonempty
    } else {
        // a nonempty, so b nonempty (else lex_lt(a, b) fails), so c nonempty
        if a[0] as u32 == b[0] as u32 && b[0] as u32 == c[0] as u32 {
            lemma_lex_trans(a.drop_first(), b.drop_first(), c.drop_first());
        }
    }
}

/// Compare two strings character by character.
pub fn str_compare(a: &str, b: &str) -> (r: Cmp)
    ensures
        (r == Cmp::Lt) <==> lex_lt(a@, b@),
        (r == Cmp::Eq) <==> a@ == b@,
        (r == Cmp::Gt) <==> lex_lt(b@, a@),
{
    let a_len = a.unicode_len();
    let b_len = b.unicode_len();
    let mut i: usize = 0;
    loop
        invariant
            i <= a_len,
            i <= b_len,
            a_len == a@.len(),
            b_len == b@.len(),
            forall|j: int| 0 <= j < i ==> a@[j] == b@[j],
        decreases a_len - i,
    {
        if i == a_len && i == b_len {
            proof {
                assert(a@ =~= b@);
                lemma_lex_trichotomy(a@, b@);
            }
            return Cmp::Eq;
        }
        if i == a_len {
            proof {
                lemma_lex_skip_common(a@, b@, i as int);
                lemma_lex_trichotomy(a@, b@);
            }
            return Cmp::Lt;
        }
        if i == b_len {
            proof {
                lemma_lex_skip_common(b@, a@, i as int);
                lemma_lex_trichotomy(a@, b@);
            }
            return Cmp::Gt;
        }
        let ca = a.get_char(i);
        let cb = b.get_char(i);
        let ua = ca as u32;
        let ub = cb as u32;
        if ua < ub {
            proof {
                lemma_lex_skip_common(a@, b@, i as int);
                lemma_lex_trichotomy(a@, b@);
            }
            return Cmp::Lt;
        }
        if ua > ub {
            proof {
                lemma_lex_skip_common(b@, a@, i as int);
                lemma_lex_trichotomy(a@, b@);
            }
            return Cmp::Gt;
        }
        proof {
            lemma_char_eq(ca, cb);
        }
        i = i + 1;
    }
}

/// After a common prefix of length `i`, `lex_lt` is decided by the rest:
/// either `a` ends at `i` while `b` goes on, or the characters at `i` order
/// `a` strictly below `b`.
proof fn lemma_lex_skip_common(a: Seq<char>, b: Seq<char>, i: int)
    requires
        0 <= i <= a.len(),
        i <= b.len(),
        forall|j: int| 0 <= j < i ==> a[j] == b[j],
        i < b.len(),
        i == a.len() || (a[i] as u32) < (b[i] as u32),
    ensures
        lex_lt(a, b),
    decreases i,
{
    if i == 0 {
        if a.len() == 0 {
        } else {
            if a[0] as u32 == b[0] as u32 {
                lemma_char_eq(a[0], b[0]);
            }
        }
    } else {
        if a[0] as u32 == b[0] as u32 {
        } else {
            lemma_char_eq(a[0], b[0]);
        }
        lemma_lex_skip_common(a.drop_first(), b.drop_first(), i - 1);
    }
}

/// Whether two strings hold the same characters.
pub fn str_eq(a: &str, b: &str) -> (r: bool)
    ensures
        r <==> a@ == b@,
{
    match str_compare(a, b) {
        Cmp::Eq => true,
        _ => false,
    }
}

/// A sequence of characters with no comma in it.
pub open spec fn comma_free(p: Seq<char>) -> bool {
    forall|i: int| 0 <= i < p.len() ==> p[i] != ','
}

/// Every part of the list is comma-free.
pub open spec fn all_comma_free(ps: Seq<Seq<char>>) -> bool {
    forall|k: int| 0 <= k < ps.len() ==> comma_free(#[trigger] ps[k])
}

/// The parts of `s` between commas, in order. Splitting never fails and the
/// result is never empty: an input without commas is one part, and an empty
/// input is one empty part.
pub open spec fn split_commas(s: Seq<char>) -> Seq<Seq<char>>
    decreases s.len(),
{
    if s.len() == 0 {
        seq![Seq::<char>::empty()]
    } else if s[0] == ',' {
        seq![Seq::<char>::empty()] + split_commas(s.drop_first())
    } else {
        let rest = split_commas(s.drop_first());
        seq![seq![s[0]] + rest[0]] + rest.drop_first()
    }
}

/// The parts joined back together with a comma between each two.
pub open spec fn join_commas(ps: Seq<Seq<char>>) -> Seq<char>
    decreases ps.len(),
{
    if ps.len() == 0 {
        Seq::<char>::empty()
    } else if ps.len() == 1 {
        ps[0]
    } else {
        ps[0] + seq![','] + join_commas(ps.drop_first())
    }
}

/// `x` inserted into an ordered duplicate-free list, keeping it ordered and
/// duplicate-free: an `x` already present is dropped.
pub open spec fn insert_unique(ps: Seq<Seq<char>>, x: Seq<char>) -> Seq<Seq<char>>
    decreases ps.len(),
{
    if ps.len() == 0 {
        seq![x]
    } else if x == ps[0] {
        ps
    } else if lex_lt(x, ps[0]) {
        seq![x] + ps
    } else {
        seq![ps[0]] + insert_unique(ps.drop_first(), x)
    }
}

/// The parts sorted lexicographically with duplicates removed.
pub open spec fn sort_unique(ps: Seq<Seq<char>>) -> Seq<Seq<char>>
    decreases ps.len(),
{
    if ps.len() == 0 {
        Seq::<Seq<char>>::empty()
    } else {
        insert_unique(sort_unique(ps.drop_last()), ps.last())
    }
}

/// Each part strictly precedes the next: sorted, with no duplicates.
pub open spec fn strictly_sorted(ps: Seq<Seq<char>>) -> bool {
    forall|i: int, j: int| 0 <= i < j < ps.len() ==> lex_lt(ps[i], ps[j])
}

/// The canonical form of a comma-joined node list: split on commas, sort
/// lexicographically, drop duplicates, rejoin with commas.
pub open spec fn canon_nodes(s: Seq<char>) -> Seq<char> {
    join_commas(sort_unique(split_commas(s)))
}

/// Splitting yields at least one part.
pub proof fn lemma_split_nonempty(s: Seq<char>)
    ensures
        split_commas(s).len() >= 1,
    decreases s.len(),
{
    if s.len() == 0 {
    } else {
        lemma_split_nonempty(s.drop_first());
    }
}

/// No part of a split holds a comma.
pub proof fn lemma_split_comma_free(s: Seq<char>)
    ensures
        all_comma_free(split_commas(s)),
    decreases s.len(),
{
    if s.len() == 0 {
        assert(comma_free(Seq::<char>::empty()));
    } else if s[0] == ',' {
        lemma_split_comma_free(s.drop_first());
        assert(comma_free(Seq::<char>::empty()));
        assert forall|k: int| 0 <= k < split_commas(s).len()
            implies comma_free(#[trigger] split_commas(s)[k]) by {
            if k > 0 {
                assert(split_commas(s)[k] == split_commas(s.drop_first())[k - 1]);
            }
        }
    } else {
        lemma_split_comma_free(s.drop_first());
        lemma_split_nonempty(s.drop_first());
        let rest = split_commas(s.drop_first());
        assert(comma_free(seq![s[0]] + rest[0])) by {
            assert(comma_free(rest[0]));
        }
        assert forall|k: int| 0 <= k < split_commas(s).len()
            implies comma_free(#[trigger] split_commas(s)[k]) by {
            if k > 0 {
                assert(split_commas(s)[k] == rest.drop_first()[k - 1]);
                assert(rest.drop_first()[k - 1] == rest[k]);
            }
        }
    }
}

/// Splitting a comma-free string yields that one part.
pub proof fn lemma_split_whole(p: Seq<char>)
    requires
        comma_free(p),
    ensures
        split_commas(p) == seq![p],
    decreases p.len(),
{
    if p.len() == 0 {
        assert(p =~= Seq::<char>::empty());
    } else {
        assert(comma_free(p.drop_first()));
        lemma_split_whole(p.drop_first());
        let rest = split_commas(p.drop_first());
        assert(rest[0] == p.drop_first());
        assert(seq![p[0]] + p.drop_first() =~= p);
        assert(seq![seq![p[0]] + rest[0]] + rest.drop_first() =~= seq![p]);
    }
}

/// Splitting `p`, a comma, then `t` yields `p` followed by the parts of `t`.
pub proof fn lemma_split_prefix(p: Seq<char>, t: Seq<char>)
    requires
        comma_free(p),
    ensures
        split_commas(p + seq![','] + t) == seq![p] + split_commas(t),
    decreases p.len(),
{
    let s = p + seq![','] + t;
    if p.len() == 0 {
        assert(s[0] == ',');
        assert(s.drop_first() =~= t);
        assert(p =~= Seq::<char>::empty());
        assert(seq![Seq::<char>::empty()] + split_commas(t) =~= seq![p] + split_commas(t));
    } else {
        assert(s[0] == p[0]);
        assert(s[0] != ',');
        assert(comma_free(p.drop_first()));
        assert(s.drop_first() =~= p.drop_first() + seq![','] + t);
        lemma_split_prefix(p.drop_first(), t);
        let rest = split_commas(s.drop_first());
        assert(rest == seq![p.drop_first()] + split_commas(t));
        assert(rest[0] == p.drop_first());
        assert(seq![s[0]] + rest[0] =~= p);
        lemma_split_nonempty(t);
        assert(rest.drop_first() =~= split_commas(t));
        assert(seq![seq![s[0]] + rest[0]] + rest.drop_first() =~= seq![p] + split_commas(t));
    }
}

/// Inserting keeps the list strictly sorted, keeps every element either from
/// the list or equal to `x`, makes the list contain `x`, and never shrinks it.
pub proof fn lemma_insert_unique_props(ps: Seq<Seq<char>>, x: Seq<char>)
    requires
        strictly_sorted(ps),
    ensures
        strictly_sorted(insert_unique(ps, x)),
        forall|k: int|
            0 <= k < insert_unique(ps, x).len()
                ==> #[trigger] insert_unique(ps, x)[k] == x || ps.contains(insert_unique(ps, x)[k]),
        insert_unique(ps, x).contains(x),
        insert_unique(ps, x).len() >= ps.len(),
        insert_unique(ps, x).len() >= 1,
    decreases ps.len(),
{
    let r = insert_unique(ps, x);
    if ps.len() == 0 {
        assert(r == seq![x]);
        assert(r[0] == x);
    } else if x == ps[0] {
        assert(forall|k: int| 0 <= k < ps.len() ==> ps.contains(#[trigger] ps[k]));
        assert(ps[0] == x);
    } else if lex_lt(x, ps[0]) {
        assert(r == seq![x] + ps);
        assert(r[0] == x);
        assert forall|i: int, j: int| 0 <= i < j < r.len() implies lex_lt(r[i], r[j]) by {
            if i == 0 {
                if j == 1 {
                    assert(r[j] == ps[0]);
                } else {
                    assert(r[j] == ps[j - 1]);
                    lemma_lex_trans(x, ps[0], ps[j - 1]);
                }
            } else {
                assert(r[i] == ps[i - 1] && r[j] == ps[j - 1]);
            }
        }
        assert(forall|k: int| 1 <= k < r.len() ==> ps.contains(#[trigger] r[k]));
    } else {
        lemma_lex_trichotomy(x, ps[0]);
        // here lex_lt(ps[0], x)
        let tail = ps.drop_first();
        assert(strictly_sorted(tail)) by {
            assert(forall|k: int| 0 <= k < tail.len() ==> #[trigger] tail[k] == ps[k + 1]);
        }
        lemma_insert_unique_props(tail, x);
        let rt = insert_unique(tail, x);
        assert(r == seq![ps[0]] + rt);
        assert forall|i: int, j: int| 0 <= i < j < r.len() implies lex_lt(r[i], r[j]) by {
            if i == 0 {
                assert(r[j] == rt[j - 1]);
                if rt[j - 1] == x {
                    // ps[0] < x
                } else {
                    assert(tail.contains(rt[j - 1]));
                    let w = choose|w: int| 0 <= w < tail.len() && tail[w] == rt[j - 1];
                    assert(tail[w] == ps[w + 1]);
                    assert(lex_lt(ps[0], ps[w + 1]));
                }
            } else {
                assert(r[i] == rt[i - 1] && r[j] == rt[j - 1]);
            }
        }
        assert forall|k: int| 0 <= k < r.len()
            implies #[trigger] r[k] == x || ps.contains(r[k]) by {
            if k == 0 {
                assert(ps.contains(ps[0]));
            } else {
                assert(r[k] == rt[k - 1]);
                if rt[k - 1] != x {
                    assert(tail.contains(rt[k - 1]));
                    let w = choose|w: int| 0 <= w < tail.len() && tail[w] == rt[k - 1];
                    assert(ps[w + 1] == tail[w]);
                    assert(ps.contains(ps[w + 1]));
                }
            }
        }
        assert(rt.contains(x));
        let w = choose|w: int| 0 <= w < rt.len() && rt[w] == x;
        assert(r[w + 1] == x);
        assert(r.contains(x));
    }
}

/// Sorting with duplicate removal yields a strictly sorted list whose
/// elements all come from the input; a nonempty input keeps at least one.
pub proof fn lemma_sort_unique_props(ps: Seq<Seq<char>>)
    ensures
        strictly_sorted(sort_unique(ps)),
        forall|k: int|
            0 <= k < sort_unique(ps).len() ==> ps.contains(#[trigger] sort_unique(ps)[k]),
        ps.len() >= 1 ==> sort_unique(ps).len() >= 1,
    decreases ps.len(),
{
    if ps.len() == 0 {
    } else {
        let front = ps.drop_last();
        lemma_sort_unique_props(front);
        lemma_insert_unique_props(sort_unique(front), ps.last());
        assert forall|k: int| 0 <= k < sort_unique(ps).len()
            implies ps.contains(#[trigger] sort_unique(ps)[k]) by {
            let e = sort_unique(ps)[k];
            if e == ps.last() {
                assert(ps[ps.len() - 1] == e);
            } else {
                assert(sort_unique(front).contains(e));
                let w = choose|w: int| 0 <= w < sort_unique(front).len() && sort_unique(front)[w] == e;
                assert(front.contains(e));
                let v = choose|v: int| 0 <= v < front.len() && front[v] == e;
                assert(ps[v] == e);
            }
        }
    }
}

/// Inserting an element strictly above the whole list appends it.
proof fn lemma_insert_unique_at_end(ps: Seq<Seq<char>>, x: Seq<char>)
    requires
        forall|k: int| 0 <= k < ps.len() ==> lex_lt(#[trigger] ps[k], x),
    ensures
        insert_unique(ps, x) == ps.push(x),
    decreases ps.len(),
{
    if ps.len() == 0 {
        assert(seq![x] =~= ps.push(x));
    } else {
        lemma_lex_trichotomy(x, ps[0]);
        let tail = ps.drop_first();
        assert(forall|k: int| 0 <= k < tail.len() ==> #[trigger] tail[k] == ps[k + 1]);
        lemma_insert_unique_at_end(tail, x);
        assert(seq![ps[0]] + tail.push(x) =~= ps.push(x));
    }
}

/// Sorting a strictly sorted list changes nothing.
pub proof fn lemma_sort_unique_of_sorted(ps: Seq<Seq<char>>)
    requires
        strictly_sorted(ps),
    ensures
        sort_unique(ps) == ps,
    decreases ps.len(),
{
    if ps.len() == 0 {
        assert(sort_unique(ps) =~= ps);
    } else {
        let front = ps.drop_last();
        assert(strictly_sorted(front)) by {
            assert(forall|k: int| 0 <= k < front.len() ==> #[trigger] front[k] == ps[k]);
        }
        lemma_sort_unique_of_sorted(front);
        assert(forall|k: int| 0 <= k < front.len() ==> lex_lt(#[trigger] front[k], ps.last()));
        lemma_insert_unique_at_end(front, ps.last());
        assert(front.push(ps.last()) =~= ps);
    }
}

/// Canonicalizing a node list twice is the same as canonicalizing it once.
pub proof fn lemma_canon_idempotent(s: Seq<char>)
    ensures
        canon_nodes(canon_nodes(s)) == canon_nodes(s),
{
    let ps = split_commas(s);
    lemma_split_nonempty(s);
    lemma_split_comma_free(s);
    let q = sort_unique(ps);
    lemma_sort_unique_props(ps);
    assert(all_comma_free(q)) by {
        assert forall|k: int| 0 <= k < q.len() implies comma_free(#[trigger] q[k]) by {
            assert(ps.contains(q[k]));
            let w = choose|w: int| 0 <= w < ps.len() && ps[w] == q[k];
            assert(comma_free(ps[w]));
        }
    }
    lemma_split_join(q);
    lemma_sort_unique_of_sorted(q);
}

/// Splitting undoes joining, for a nonempty list of comma-free parts.
pub proof fn lemma_split_join(ps: Seq<Seq<char>>)
    requires
        ps.len() >= 1,
        all_comma_free(ps),
    ensures
        split_commas(join_commas(ps)) == ps,
    decreases ps.len(),
{
    if ps.len() == 1 {
        assert(comma_free(ps[0]));
        lemma_split_whole(ps[0]);
        assert(seq![ps[0]] =~= ps);
    } else {
        assert(comma_free(ps[0]));
        assert(all_comma_free(ps.drop_first())) by {
            assert(forall|k: int|
                0 <= k < ps.drop_first().len()
                    ==> #[trigger] ps.drop_first()[k] == ps[k + 1]);
        }
        lemma_split_join(ps.drop_first());
        lemma_split_prefix(ps[0], join_commas(ps.drop_first()));
        assert(seq![ps[0]] + ps.drop_first() =~= ps);
    }
}

/// The character sequences of a list of strings.
pub open spec fn parts_view(v: Seq<String>) -> Seq<Seq<char>> {
    v.map_values(|x: String| x@)
}

/// Split a string into its comma-separated parts.
fn split_commas_exec(s: &str) -> (r: Vec<String>)
    ensures
        parts_view(r@) == split_commas(s@),
{
    let len = s.unicode_len();
    let mut parts: Vec<String> = Vec::new();
    let mut start: usize = 0;
    let mut i: usize = 0;
    proof {
        assert(s@.subrange(0, len as int) =~= s@);
        assert(parts_view(parts@) + split_commas(s@) =~= split_commas(s@));
    }
    while i < len
        invariant
            start <= i <= len,
            len == s@.len(),
            forall|j: int| start <= j < i ==> s@[j] != ',',
            split_commas(s@) == parts_view(parts@)
                + split_commas(s@.subrange(start as int, len as int)),
        decreases len - i,
    {
        if s.get_char(i) == ',' {
            let part = s.substring_char(start, i).to_owned();
            proof {
                let p = s@.subrange(start as int, i as int);
                let t = s@.subrange(i as int + 1, len as int);
                assert(comma_free(p));
                assert(s@.subrange(start as int, len as int) =~= p + seq![','] + t);
                lemma_split_prefix(p, t);
                assert(parts_view(parts@.push(part))
                    =~= parts_view(parts@) + seq![p]);
                assert(parts_view(parts@) + (seq![p] + split_commas(t))
                    =~= parts_view(parts@.push(part)) + split_commas(t));
            }
            parts.push(part);
            start = i + 1;
        }
        i = i + 1;
    }
    let last = s.substring_char(start, len).to_owned();
    proof {
        let p = s@.subrange(start as int, len as int);
        assert(comma_free(p));
        lemma_split_whole(p);
        assert(parts_view(parts@.push(last)) =~= parts_view(parts@) + seq![p]);
        assert(parts_view(parts@) + split_commas(p) =~= parts_view(parts@.push(last)));
    }
    parts.push(last);
    parts
}

/// After a prefix of elements strictly below `x`, inserting works on the rest.
proof fn lemma_insert_unique_at(ps: Seq<Seq<char>>, x: Seq<char>, j: int)
    requires
        0 <= j <= ps.len(),
        forall|k: int| 0 <= k < j ==> lex_lt(#[trigger] ps[k], x),
    ensures
        insert_unique(ps, x) == ps.take(j) + insert_unique(ps.skip(j), x),
    decreases j,
{
    if j == 0 {
        assert(ps.skip(0) =~= ps);
        assert(ps.take(0) + insert_unique(ps, x) =~= insert_unique(ps, x));
    } else {
        lemma_lex_trichotomy(x, ps[0]);
        let tail = ps.drop_first();
        assert(forall|k: int| 0 <= k < tail.len() ==> #[trigger] tail[k] == ps[k + 1]);
        lemma_insert_unique_at(tail, x, j - 1);
        assert(tail.take(j - 1) =~= ps.take(j).drop_first());
        assert(tail.skip(j - 1) =~= ps.skip(j));
        assert(seq![ps[0]] + (ps.take(j).drop_first() + insert_unique(ps.skip(j), x))
            =~= ps.take(j) + insert_unique(ps.skip(j), x));
    }
}

/// Insert a part into an ordered duplicate-free list of parts.
fn insert_node(parts: &mut Vec<String>, x: String)
    ensures
        parts_view(final(parts)@) == insert_unique(parts_view(old(parts)@), x@),
{
    let ghost ps = parts_view(parts@);
    let n = parts.len();
    let mut j: usize = 0;
    while j < n
        invariant
            j <= n,
            n == parts.len(),
            parts_view(parts@) == ps,
            ps == parts_view(old(parts)@),
            forall|k: int| 0 <= k < j ==> lex_lt(#[trigger] ps[k], x@),
        decreases n - j,
    {
        proof {
            assert(ps[j as int] == parts@[j as int]@);
        }
        match str_compare(parts[j].as_str(), x.as_str()) {
            Cmp::Eq => {
                proof {
                    lemma_insert_unique_at(ps, x@, j as int);
                    assert(ps.skip(j as int)[0] == ps[j as int]);
                    assert(insert_unique(ps.skip(j as int), x@) == ps.skip(j as int));
                    assert(ps.take(j as int) + ps.skip(j as int) =~= ps);
                }
                return ;
            },
            Cmp::Gt => {
                proof {
                    lemma_insert_unique_at(ps, x@, j as int);
                    assert(ps.skip(j as int)[0] == ps[j as int]);
                    assert(lex_lt(x@, ps.skip(j as int)[0]));
                    assert(ps.skip(j as int).len() > 0);
                    assert(insert_unique(ps.skip(j as int), x@)
                        == seq![x@] + ps.skip(j as int));
                }
                let ghost before = parts@;
                parts.insert(j, x);
                proof {
                    assert(parts_view(parts@)
                        =~= ps.take(j as int) + (seq![x@] + ps.skip(j as int))) by {
                        assert(parts@ == before.insert(j as int, x));
                        assert(forall|k: int| 0 <= k < parts@.len()
                            ==> #[trigger] parts_view(parts@)[k] == parts@[k]@);
                    }
                }
                return ;
            },
            Cmp::Lt => {
                j = j + 1;
            },
        }
    }
    proof {
        lemma_insert_unique_at(ps, x@, n as int);
        assert(ps.skip(n as int) =~= Seq::<Seq<char>>::empty());
        assert(ps.take(n as int) =~= ps);
    }
    let ghost before = parts@;
    parts.push(x);
    proof {
        assert(parts_view(parts@) =~= ps + seq![x@]) by {
            assert(parts@ == before.push(x));
            assert(forall|k: int| 0 <= k < parts@.len()
                ==> #[trigger] parts_view(parts@)[k] == parts@[k]@);
        }
    }
}

/// Joining a list extended by one more part appends a comma and the part.
proof fn lemma_join_push(ps: Seq<Seq<char>>, x: Seq<char>)
    requires
        ps.len() >= 1,
    ensures
        join_commas(ps.push(x)) == join_commas(ps) + seq![','] + x,
    decreases ps.len(),
{
    if ps.len() == 1 {
        let q = ps.push(x);
        assert(q[0] == ps[0]);
        assert(q.drop_first() =~= seq![x]);
        assert(join_commas(q.drop_first()) == x);
    } else {
        let q = ps.push(x);
        assert(q[0] == ps[0]);
        assert(q.drop_first() =~= ps.drop_first().push(x));
        lemma_join_push(ps.drop_first(), x);
        assert(ps[0] + seq![','] + (join_commas(ps.drop_first()) + seq![','] + x)
            =~= (ps[0] + seq![','] + join_commas(ps.drop_first())) + seq![','] + x);
    }
}

/// Join a list of parts with commas.
fn join_commas_exec(parts: &Vec<String>) -> (r: String)
    ensures
        r@ == join_commas(parts_view(parts@)),
{
    let n = parts.len();
    if n == 0 {
        let r = String::new();
        proof {
            assert(parts_view(parts@).len() == 0);
        }
        return r;
    }
    let mut r: String = parts[0].clone();
    proof {
        assert(parts_view(parts@.take(1)).len() == 1);
        assert(parts_view(parts@.take(1))[0] == parts@[0]@);
        assert(r@ == join_commas(parts_view(parts@.take(1))));
    }
    let mut j: usize = 1;
    while j < n
        invariant
            1 <= j <= n,
            n == parts.len(),
            r@ == join_commas(parts_view(parts@.take(j as int))),
        decreases n - j,
    {
        r.append(",");
        r.append(parts[j].as_str());
        proof {
            let pv = parts_view(parts@.take(j as int));
            let pv1 = parts_view(parts@.take(j as int + 1));
            assert(pv1 =~= pv.push(parts@[j as int]@));
            assert(pv.len() >= 1);
            lemma_join_push(pv, parts@[j as int]@);
            reveal_strlit(",");
            assert(","@ =~= seq![',']);
        }
        j = j + 1;
    }
    proof {
        assert(parts@.take(n as int) =~= parts@);
    }
    r
}

/// Canonicalize a comma-joined node list: split on commas, sort the parts
/// lexicographically, drop duplicate parts, and rejoin with commas.
pub fn canonicalize_nodes(s: &str) -> (r: String)
    ensures
        r@ == canon_nodes(s@),
{
    let parts = split_commas_exec(s);
    let mut sorted: Vec<String> = Vec::new();
    let n = parts.len();
    let mut i: usize = 0;
    while i < n
        invariant
            i <= n,
            n == parts.len(),
            parts_view(sorted@) == sort_unique(parts_view(parts@).take(i as int)),
        decreases n - i,
    {
        let ghost pv = parts_view(parts@);
        insert_node(&mut sorted, parts[i].clone());
        proof {
            assert(pv.take(i as int + 1).drop_last() =~= pv.take(i as int));
            assert(pv.take(i as int + 1).last() == pv[i as int]);
            assert(pv[i as int] == parts@[i as int]@);
        }
        i = i + 1;
    }
    proof {
        assert(parts_view(parts@).take(n as int) =~= parts_view(parts@));
    }
    join_commas_exec(&sorted)
}

} // verus!
