//! Merging of search rows: rows that share a course number are one offering
//! split across scheduling nodes, and collapse to one row whose node list
//! gathers every node, sorted, deduplicated and comma-joined.

use vstd::prelude::*;
use vstd::string::*;
use crate::model::{CourseInfo, CourseInfoV};
use crate::strings::{canon_nodes, canonicalize_nodes, lemma_canon_idempotent, str_eq};

verus! {

/// The mathematical values of a list of rows.
pub open spec fn infos_view(v: Seq<CourseInfo>) -> Seq<CourseInfoV> {
    v.map_values(|c: CourseInfo| c@)
}

/// The first position whose row has the given course number, or the length
/// when no row has it.
pub open spec fn find_idx(acc: Seq<CourseInfoV>, key: Seq<char>) -> int
    decreases acc.len(),
{
    if acc.len() == 0 {
        0
    } else if acc[0].course_no == key {
        0
    } else {
        1 + find_idx(acc.drop_first(), key)
    }
}

proof fn lemma_find_idx(acc: Seq<CourseInfoV>, key: Seq<char>, j: int)
    requires
        0 <= j <= acc.len(),
        forall|k: int| 0 <= k < j ==> (#[trigger] acc[k]).course_no != key,
        j < acc.len() ==> acc[j].course_no == key,
    ensures
        find_idx(acc, key) == j,
    decreases j,
{
    if acc.len() == 0 {
    } else if j == 0 {
    } else {
        let tail = acc.drop_first();
        assert(forall|k: int| 0 <= k < tail.len() ==> #[trigger] tail[k] == acc[k + 1]);
        lemma_find_idx(tail, key, j - 1);
    }
}

/// A canonical row extended by one more row's node value: a missing new node
/// changes nothing; otherwise the node lists are joined with a comma.
pub open spec fn with_node(c: CourseInfoV, node: Option<Seq<char>>) -> CourseInfoV {
    match node {
        None => c,
        Some(n) => match c.node {
            None => CourseInfoV { node: Some(n), ..c },
            Some(e) => CourseInfoV { node: Some(e + seq![','] + n), ..c },
        },
    }
}

/// One grouping step: a row whose course number is already present extends
/// that entry's node list; a new course number appends a new entry.
pub open spec fn merge_step(acc: Seq<CourseInfoV>, c: CourseInfoV) -> Seq<CourseInfoV> {
    let j = find_idx(acc, c.course_no);
    if j < acc.len() {
        acc.update(j, with_node(acc[j], c.node))
    } else {
        acc.push(c)
    }
}

/// All rows grouped by course number, in order of first appearance. The
/// first row of each course number is the canonical record; later rows only
/// contribute their node value.
pub open spec fn group_rows(rows: Seq<CourseInfoV>) -> Seq<CourseInfoV>
    decreases rows.len(),
{
    if rows.len() == 0 {
        Seq::<CourseInfoV>::empty()
    } else {
        merge_step(group_rows(rows.drop_last()), rows.last())
    }
}

/// A row with its node list put in canonical form: split on commas, sorted,
/// deduplicated, rejoined. A row without a node passes through unchanged.
pub open spec fn canon_row(c: CourseInfoV) -> CourseInfoV {
    match c.node {
        Some(n) => CourseInfoV { node: Some(canon_nodes(n)), ..c },
        None => c,
    }
}

/// What merging returns: the rows grouped by course number, each group's
/// node list in canonical form.
pub open spec fn merge_spec(rows: Seq<CourseInfoV>) -> Seq<CourseInfoV> {
    group_rows(rows).map_values(|c: CourseInfoV| canon_row(c))
}

/// Collapse duplicate offerings: one row per distinct course number, in
/// order of first appearance, its node list gathering every node of the
/// group, sorted, deduplicated and comma-joined.
pub fn merge_courses(courses: Vec<CourseInfo>) -> (r: Vec<CourseInfo>)
    ensures
        infos_view(r@) == merge_spec(infos_view(courses@)),
{
    let ghost orig = infos_view(courses@);
    let mut rows = courses;
    let mut out: Vec<CourseInfo> = Vec::new();
    let ghost mut i: int = 0;
    proof {
        assert(infos_view(rows@).skip(0) =~= orig);
        assert(orig.take(0) =~= Seq::<CourseInfoV>::empty());
    }
    while rows.len() > 0
        invariant
            0 <= i <= orig.len(),
            infos_view(rows@) =~= orig.skip(i),
            infos_view(out@) == group_rows(orig.take(i)),
        decreases rows.len(),
    {
        let ghost pre_rows = rows@;
        proof {
            assert(rows@.len() == infos_view(rows@).len());
            assert(infos_view(rows@)[0] == rows@[0]@);
        }
        let c = rows.remove(0);
        proof {
            assert(c@ == orig[i]);
            assert(infos_view(pre_rows).len() == pre_rows.len());
            assert(infos_view(rows@).len() == rows@.len());
            assert(pre_rows.len() == orig.len() - i);
            assert forall|k: int| 0 <= k < rows@.len()
                implies infos_view(rows@)[k] == orig.skip(i + 1)[k] by {
                assert(infos_view(rows@)[k] == rows@[k]@);
                assert(rows@[k] == pre_rows[k + 1]);
                assert(pre_rows[k + 1]@ == infos_view(pre_rows)[k + 1]);
                assert(infos_view(pre_rows)[k + 1] == orig.skip(i)[k + 1]);
                assert(orig.skip(i)[k + 1] == orig[i + 1 + k]);
                assert(orig.skip(i + 1)[k] == orig[i + 1 + k]);
            }
            assert(infos_view(rows@) =~= orig.skip(i + 1));
        }
        let ghost g = infos_view(out@);
        let n = out.len();
        let mut j: usize = 0;
        while j < n && !str_eq(out[j].course_no.as_str(), c.course_no.as_str())
            invariant
                j <= n,
                n == out.len(),
                infos_view(out@) == g,
                forall|k: int| 0 <= k < j ==> (#[trigger] g[k]).course_no != c@.course_no,
                forall|k: int| 0 <= k < out@.len() ==> #[trigger] g[k] == out@[k]@,
            decreases n - j,
        {
            j = j + 1;
        }
        if j < n {
            proof {
                lemma_find_idx(g, c@.course_no, j as int);
            }
            let ghost pre = out@;
            let mut row = out.remove(j);
            let row_node = row.node.take();
            let c_node = c.node;
            let updated: Option<String> = match (row_node, c_node) {
                (x, None) => x,
                (None, Some(nn)) => Some(nn),
                (Some(e), Some(nn)) => {
                    let mut joined = e;
                    joined.append(",");
                    joined.append(nn.as_str());
                    proof {
                        reveal_strlit(",");
                        assert(","@ =~= seq![',']);
                    }
                    Some(joined)
                },
            };
            row.node = updated;
            proof {
                assert(row@.node == with_node(g[j as int], c@.node).node) by {
                    if g[j as int].node is Some && c@.node is Some {
                        let e = g[j as int].node->0;
                        let nn = c@.node->0;
                        assert(row@.node->0 =~= e + seq![','] + nn);
                    }
                }
                assert(row@ == with_node(g[j as int], c@.node));
            }
            out.insert(j, row);
            proof {
                assert(out@ =~= pre.update(j as int, row));
                assert(infos_view(out@) =~= g.update(j as int, row@)) by {
                    assert(forall|k: int| 0 <= k < out@.len()
                        ==> #[trigger] infos_view(out@)[k] == out@[k]@);
                    assert(forall|k: int| 0 <= k < pre.len()
                        ==> #[trigger] infos_view(pre)[k] == pre[k]@);
                }
                assert(orig.take(i + 1).drop_last() =~= orig.take(i));
                assert(orig.take(i + 1).last() == orig[i]);
                assert(infos_view(out@) == group_rows(orig.take(i + 1)));
                i = i + 1;
            }
        } else {
            proof {
                lemma_find_idx(g, c@.course_no, n as int);
            }
            let ghost before = out@;
            out.push(c);
            proof {
                assert(infos_view(out@) =~= g.push(out@[out@.len() - 1]@)) by {
                    assert(forall|k: int| 0 <= k < out@.len()
                        ==> #[trigger] infos_view(out@)[k] == out@[k]@);
                    assert(forall|k: int| 0 <= k < before.len()
                        ==> before[k] == out@[k]);
                }
                assert(orig.take(i + 1).drop_last() =~= orig.take(i));
                assert(orig.take(i + 1).last() == orig[i]);
                assert(infos_view(out@) == group_rows(orig.take(i + 1)));
                i = i + 1;
            }
        }
    }
    proof {
        assert(orig.take(i) =~= orig);
    }
    // canonicalize each surviving row's node list
    let ghost grouped = group_rows(orig);
    let n = out.len();
    let mut p: usize = 0;
    while p < n
        invariant
            p <= n,
            n == out.len(),
            out@.len() == grouped.len(),
            forall|k: int| 0 <= k < p ==> out@[k]@ == canon_row(#[trigger] grouped[k]),
            forall|k: int| p <= k < out@.len() ==> out@[k]@ == #[trigger] grouped[k],
        decreases n - p,
    {
        let ghost pre = out@;
        let mut row = out.remove(p);
        let row_node = row.node.take();
        let updated: Option<String> = match row_node {
            Some(nodes) => Some(canonicalize_nodes(nodes.as_str())),
            None => None,
        };
        row.node = updated;
        proof {
            assert(row@ == canon_row(grouped[p as int]));
        }
        out.insert(p, row);
        proof {
            assert(out@ =~= pre.update(p as int, row));
        }
        p = p + 1;
    }
    proof {
        assert(infos_view(out@) =~= merge_spec(orig)) by {
            assert(forall|k: int| 0 <= k < out@.len()
                ==> #[trigger] infos_view(out@)[k] == out@[k]@);
        }
    }
    out
}

/// No two rows share a course number.
pub open spec fn distinct_keys(ps: Seq<CourseInfoV>) -> bool {
    forall|a: int, b: int|
        0 <= a < b < ps.len() ==> (#[trigger] ps[a]).course_no != (#[trigger] ps[b]).course_no
}

proof fn lemma_find_idx_props(acc: Seq<CourseInfoV>, key: Seq<char>)
    ensures
        0 <= find_idx(acc, key) <= acc.len(),
        find_idx(acc, key) < acc.len() ==> acc[find_idx(acc, key)].course_no == key,
        forall|k: int| 0 <= k < find_idx(acc, key) ==> (#[trigger] acc[k]).course_no != key,
    decreases acc.len(),
{
    if acc.len() == 0 {
    } else if acc[0].course_no == key {
    } else {
        let tail = acc.drop_first();
        assert(forall|k: int| 0 <= k < tail.len() ==> #[trigger] tail[k] == acc[k + 1]);
        lemma_find_idx_props(tail, key);
        assert forall|k: int| 0 <= k < find_idx(acc, key)
            implies (#[trigger] acc[k]).course_no != key by {
            if k > 0 {
                assert(acc[k] == tail[k - 1]);
            }
        }
    }
}

/// Grouping leaves no two rows with the same course number.
pub proof fn lemma_group_distinct(rows: Seq<CourseInfoV>)
    ensures
        distinct_keys(group_rows(rows)),
    decreases rows.len(),
{
    if rows.len() == 0 {
    } else {
        let front = rows.drop_last();
        lemma_group_distinct(front);
        let g = group_rows(front);
        let c = rows.last();
        let j = find_idx(g, c.course_no);
        lemma_find_idx_props(g, c.course_no);
        if j < g.len() {
            let r = g.update(j, with_node(g[j], c.node));
            assert(with_node(g[j], c.node).course_no == g[j].course_no);
            assert(forall|k: int| 0 <= k < r.len()
                ==> (#[trigger] r[k]).course_no == g[k].course_no);
        } else {
            let r = g.push(c);
            assert(forall|k: int| 0 <= k < g.len()
                ==> (#[trigger] g[k]).course_no != c.course_no);
            assert forall|a: int, b: int| 0 <= a < b < r.len()
                implies (#[trigger] r[a]).course_no != (#[trigger] r[b]).course_no by {
                if b < g.len() {
                    assert(r[a] == g[a] && r[b] == g[b]);
                } else {
                    assert(r[a] == g[a] && r[b] == c);
                }
            }
        }
    }
}

/// Grouping rows whose course numbers are already pairwise distinct changes
/// nothing.
pub proof fn lemma_group_of_distinct(ps: Seq<CourseInfoV>)
    requires
        distinct_keys(ps),
    ensures
        group_rows(ps) == ps,
    decreases ps.len(),
{
    if ps.len() == 0 {
        assert(group_rows(ps) =~= ps);
    } else {
        let front = ps.drop_last();
        assert(distinct_keys(front)) by {
            assert(forall|k: int| 0 <= k < front.len() ==> #[trigger] front[k] == ps[k]);
        }
        lemma_group_of_distinct(front);
        let c = ps.last();
        lemma_find_idx_props(front, c.course_no);
        let j = find_idx(front, c.course_no);
        if j < front.len() {
            assert(front[j] == ps[j]);
            assert(ps[j].course_no != ps[ps.len() - 1].course_no);
            assert(false);
        }
        assert(front.push(c) =~= ps);
    }
}

/// Merging an already-merged sequence is a no-op: every row then has a
/// distinct course number and a canonical node list, so a second merge
/// returns the same rows.
pub proof fn lemma_merge_idempotent(rows: Seq<CourseInfoV>)
    ensures
        merge_spec(merge_spec(rows)) == merge_spec(rows),
{
    let g = group_rows(rows);
    let m = merge_spec(rows);
    lemma_group_distinct(rows);
    assert(m.len() == g.len());
    assert(forall|k: int| 0 <= k < m.len() ==> #[trigger] m[k] == canon_row(g[k]));
    assert(distinct_keys(m)) by {
        assert(forall|k: int| 0 <= k < m.len()
            ==> (#[trigger] m[k]).course_no == g[k].course_no) by {
            assert(forall|k: int| 0 <= k < g.len()
                ==> canon_row(#[trigger] g[k]).course_no == g[k].course_no);
        }
    }
    lemma_group_of_distinct(m);
    assert(merge_spec(m) == m.map_values(|c: CourseInfoV| canon_row(c)));
    assert(m.map_values(|c: CourseInfoV| canon_row(c)) =~= m) by {
        assert forall|k: int| 0 <= k < m.len() implies canon_row(#[trigger] m[k]) == m[k] by {
            assert(m[k] == canon_row(g[k]));
            match g[k].node {
                Some(n) => {
                    lemma_canon_idempotent(n);
                },
                None => {},
            }
        }
    }
}

} // verus!
