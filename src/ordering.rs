//! Stable ordering of tasks and projects by their server-assigned ranks.
use vstd::prelude::*;

use crate::types::{ItemStruct, ProjectStruct};

verus! {

/// A record with a rank; records are listed by ascending rank.
pub trait Ranked: Sized {
    /// The rank of the record, as a mathematical integer.
    spec fn rank(&self) -> int;

    /// Whether `self` ranks no later than `other`.
    fn rank_le(&self, other: &Self) -> (r: bool)
        ensures
            r == (self.rank() <= other.rank()),
    ;
}

/// The rank of a record, as a spec closure.
pub open spec fn rank_of<T: Ranked>() -> spec_fn(T) -> int {
    |t: T| t.rank()
}

/// `s` with `x` placed after the last element whose key is at most `x`'s.
pub open spec fn insert_by_key<T>(s: Seq<T>, x: T, key: spec_fn(T) -> int) -> Seq<T>
    decreases s.len(),
{
    if s.len() == 0 {
        seq![x]
    } else if key(s.last()) <= key(x) {
        s.push(x)
    } else {
        insert_by_key(s.drop_last(), x, key).push(s.last())
    }
}

/// The stable sort of `s` by ascending key: each element in turn is placed
/// after every earlier element whose key is at most its own.
pub open spec fn sort_by_key<T>(s: Seq<T>, key: spec_fn(T) -> int) -> Seq<T>
    decreases s.len(),
{
    if s.len() == 0 {
        s
    } else {
        insert_by_key(sort_by_key(s.drop_last(), key), s.last(), key)
    }
}

/// Keys never decrease along `s`.
pub open spec fn sorted_by_key<T>(s: Seq<T>, key: spec_fn(T) -> int) -> bool {
    forall|i: int, j: int| 0 <= i <= j < s.len() ==> key(s[i]) <= key(s[j])
}

/// Inserting at a position that has only smaller-or-equal keys before it and
/// only larger keys after it is what `insert_by_key` does.
proof fn lemma_insert_at<T>(s: Seq<T>, x: T, key: spec_fn(T) -> int, pos: int)
    requires
        0 <= pos <= s.len(),
        pos == 0 || key(s[pos - 1]) <= key(x),
        forall|i: int| pos <= i < s.len() ==> key(x) < key(s[i]),
    ensures
        insert_by_key(s, x, key) == s.insert(pos, x),
    decreases s.len(),
{
    if s.len() == 0 {
        assert(s.insert(pos, x) =~= seq![x]);
    } else if key(s.last()) <= key(x) {
        assert(s.insert(pos, x) =~= s.push(x));
    } else {
        lemma_insert_at(s.drop_last(), x, key, pos);
        assert(s.insert(pos, x) =~= s.drop_last().insert(pos, x).push(s.last()));
    }
}

proof fn lemma_insert_keeps_order<T>(s: Seq<T>, x: T, key: spec_fn(T) -> int)
    requires
        sorted_by_key(s, key),
    ensures
        sorted_by_key(insert_by_key(s, x, key), key),
        insert_by_key(s, x, key).to_multiset() == s.to_multiset().insert(x),
        insert_by_key(s, x, key).len() == s.len() + 1,
    decreases s.len(),
{
    broadcast use vstd::seq_lib::group_to_multiset_ensures;

    if s.len() == 0 {
        assert(seq![x] =~= Seq::<T>::empty().push(x));
    } else if key(s.last()) <= key(x) {
    } else {
        let d = s.drop_last();
        lemma_insert_keeps_order(d, x, key);
        assert(s =~= d.push(s.last()));
        let r = insert_by_key(d, x, key);
        assert forall|i: int| 0 <= i < r.len() implies key(r[i]) <= key(s.last()) by {
            if d.len() > 0 {
                lemma_insert_bounded(d, x, key, key(s.last()));
            } else {
                assert(r =~= seq![x]);
            }
        }
    }
}

/// Every key of `insert_by_key(s, x, key)` is at most any bound that holds
/// for `x` and for all of `s`.
proof fn lemma_insert_bounded<T>(s: Seq<T>, x: T, key: spec_fn(T) -> int, b: int)
    requires
        key(x) <= b,
        forall|i: int| 0 <= i < s.len() ==> key(s[i]) <= b,
    ensures
        forall|i: int| 0 <= i < insert_by_key(s, x, key).len() ==> key(#[trigger] insert_by_key(s, x, key)[i]) <= b,
    decreases s.len(),
{
    let r = insert_by_key(s, x, key);
    if s.len() == 0 {
        assert forall|i: int| 0 <= i < r.len() implies key(r[i]) <= b by {
            assert(r[i] == x);
        }
    } else if key(s.last()) <= key(x) {
        assert forall|i: int| 0 <= i < r.len() implies key(r[i]) <= b by {
            if i < s.len() {
                assert(r[i] == s[i]);
            }
        }
    } else {
        let d = s.drop_last();
        lemma_insert_bounded(d, x, key, b);
        let q = insert_by_key(d, x, key);
        assert forall|i: int| 0 <= i < r.len() implies key(r[i]) <= b by {
            if i < q.len() {
                assert(r[i] == q[i]);
            }
        }
    }
}

/// The stable sort is ordered by key and holds the same elements.
pub proof fn lemma_sort_by_key<T>(s: Seq<T>, key: spec_fn(T) -> int)
    ensures
        sorted_by_key(sort_by_key(s, key), key),
        sort_by_key(s, key).to_multiset() == s.to_multiset(),
        sort_by_key(s, key).len() == s.len(),
    decreases s.len(),
{
    broadcast use vstd::seq_lib::group_to_multiset_ensures;

    if s.len() > 0 {
        lemma_sort_by_key(s.drop_last(), key);
        lemma_insert_keeps_order(sort_by_key(s.drop_last(), key), s.last(), key);
        assert(s =~= s.drop_last().push(s.last()));
    }
}

/// Sorting a sequence that is already ordered leaves it as it is.
pub proof fn lemma_sort_of_sorted<T>(s: Seq<T>, key: spec_fn(T) -> int)
    requires
        sorted_by_key(s, key),
    ensures
        sort_by_key(s, key) == s,
    decreases s.len(),
{
    if s.len() > 0 {
        let d = s.drop_last();
        lemma_sort_of_sorted(d, key);
        if d.len() > 0 {
            assert(key(d.last()) <= key(s.last()));
        } else {
            assert(seq![s.last()] =~= s);
        }
        assert(d.push(s.last()) =~= s);
    }
}

/// Sorting twice gives what sorting once gives.
pub proof fn lemma_sort_idempotent<T>(s: Seq<T>, key: spec_fn(T) -> int)
    ensures
        sort_by_key(sort_by_key(s, key), key) == sort_by_key(s, key),
{
    lemma_sort_by_key(s, key);
    lemma_sort_of_sorted(sort_by_key(s, key), key);
}

/// Sorts `v` by ascending rank; records of equal rank keep their order.
pub fn stable_sort<T: Ranked>(v: Vec<T>) -> (r: Vec<T>)
    ensures
        r@ == sort_by_key(v@, rank_of::<T>()),
{
    let ghost key = rank_of::<T>();
    let ghost orig = v@;
    let mut rest = v;
    let mut out: Vec<T> = Vec::new();
    while rest.len() > 0
        invariant
            rest@.len() <= orig.len(),
            rest@ == orig.subrange(orig.len() - rest@.len(), orig.len() as int),
            out@ == sort_by_key(orig.subrange(0, orig.len() - rest@.len()), key),
            key == rank_of::<T>(),
        decreases rest.len(),
    {
        let ghost done = orig.len() - rest@.len();
        let x = rest.remove(0);
        proof {
            lemma_sort_by_key(orig.subrange(0, done), key);
        }
        let mut pos: usize = out.len();
        while pos > 0 && !out[pos - 1].rank_le(&x)
            invariant
                pos <= out@.len(),
                forall|i: int| pos <= i < out@.len() ==> key(x) < key(out@[i]),
                key == rank_of::<T>(),
            decreases pos,
        {
            pos = pos - 1;
        }
        proof {
            lemma_insert_at(out@, x, key, pos as int);
            assert(orig.subrange(0, done + 1).drop_last() =~= orig.subrange(0, done));
            assert(orig.subrange(0, done + 1).last() == x);
        }
        out.insert(pos, x);
        assert(rest@ =~= orig.subrange(orig.len() - rest@.len(), orig.len() as int));
    }
    assert(orig.subrange(0, orig.len() as int) =~= orig);
    out
}

/// The key that tasks are listed by: project id first, then the rank within
/// the project. Ranks fit in 64 bits, so this orders pairs lexicographically.
pub open spec fn task_key(t: ItemStruct) -> int {
    t.project_id as int * 0x1_0000_0000_0000_0000 + t.item_order as int
}

proof fn lemma_task_key_lex(a: ItemStruct, b: ItemStruct)
    ensures
        (task_key(a) <= task_key(b)) == (a.project_id < b.project_id || (a.project_id
            == b.project_id && a.item_order <= b.item_order)),
{
    let (pa, pb) = (a.project_id as int, b.project_id as int);
    let (oa, ob) = (a.item_order as int, b.item_order as int);
    let m: int = 0x1_0000_0000_0000_0000;
    assert(0 <= oa < m && 0 <= ob < m);
    if pa < pb {
        assert(pa * m + m <= pb * m) by (nonlinear_arith)
            requires
                pa + 1 <= pb,
                m > 0,
        ;
    } else if pa > pb {
        assert(pb * m + m <= pa * m) by (nonlinear_arith)
            requires
                pb + 1 <= pa,
                m > 0,
        ;
    }
}

impl Ranked for ItemStruct {
    open spec fn rank(&self) -> int {
        task_key(*self)
    }

    fn rank_le(&self, other: &Self) -> (r: bool) {
        proof {
            lemma_task_key_lex(*self, *other);
        }
        self.project_id < other.project_id || (self.project_id == other.project_id
            && self.item_order <= other.item_order)
    }
}

impl Ranked for ProjectStruct {
    open spec fn rank(&self) -> int {
        self.item_order as int
    }

    fn rank_le(&self, other: &Self) -> (r: bool) {
        self.item_order <= other.item_order
    }
}

/// Tasks in listing order: grouped by project, by rank within a project,
/// stable on ties.
pub open spec fn ordered_tasks(s: Seq<ItemStruct>) -> Seq<ItemStruct> {
    sort_by_key(s, rank_of::<ItemStruct>())
}

/// Projects in listing order: by rank, stable on ties.
pub open spec fn ordered_projects(s: Seq<ProjectStruct>) -> Seq<ProjectStruct> {
    sort_by_key(s, rank_of::<ProjectStruct>())
}

/// Orders tasks for listing.
pub fn sort_items(items: Vec<ItemStruct>) -> (r: Vec<ItemStruct>)
    ensures
        r@ == ordered_tasks(items@),
{
    stable_sort(items)
}

/// Orders projects for listing.
pub fn sort_projects(projects: Vec<ProjectStruct>) -> (r: Vec<ProjectStruct>)
    ensures
        r@ == ordered_projects(projects@),
{
    stable_sort(projects)
}

/// Ordered tasks are grouped by project, with no project's tasks between
/// two tasks of another, ranks never decrease within a project, and no task
/// is lost or added.
pub proof fn lemma_tasks_grouped_by_project(s: Seq<ItemStruct>)
    ensures
        ordered_tasks(s).to_multiset() == s.to_multiset(),
        forall|i: int, j: int, k: int|
            #![trigger ordered_tasks(s)[i], ordered_tasks(s)[j], ordered_tasks(s)[k]]
            0 <= i <= j <= k < ordered_tasks(s).len() && ordered_tasks(s)[i].project_id
                == ordered_tasks(s)[k].project_id ==> ordered_tasks(s)[j].project_id
                == ordered_tasks(s)[i].project_id,
        forall|i: int, j: int|
            0 <= i <= j < ordered_tasks(s).len() && ordered_tasks(s)[i].project_id
                == ordered_tasks(s)[j].project_id ==> #[trigger] ordered_tasks(s)[i].item_order
                <= #[trigger] ordered_tasks(s)[j].item_order,
{
    let r = ordered_tasks(s);
    lemma_sort_by_key(s, rank_of::<ItemStruct>());
    assert forall|i: int, j: int| 0 <= i <= j < r.len() implies r[i].project_id <= r[j].project_id
        && (r[i].project_id == r[j].project_id ==> r[i].item_order <= r[j].item_order) by {
        lemma_task_key_lex(r[i], r[j]);
        assert(rank_of::<ItemStruct>()(r[i]) <= rank_of::<ItemStruct>()(r[j]));
    }
    assert forall|i: int, j: int, k: int|
        #![trigger r[i], r[j], r[k]]
        0 <= i <= j <= k < r.len() && r[i].project_id == r[k].project_id implies r[j].project_id
        == r[i].project_id by {
        assert(r[i].project_id <= r[j].project_id);
        assert(r[j].project_id <= r[k].project_id);
    }
}

/// Ordered projects have ranks that never decrease, and no project is lost
/// or added.
pub proof fn lemma_projects_by_rank(s: Seq<ProjectStruct>)
    ensures
        ordered_projects(s).to_multiset() == s.to_multiset(),
        forall|i: int, j: int|
            0 <= i <= j < ordered_projects(s).len() ==> #[trigger] ordered_projects(s)[i].item_order
                <= #[trigger] ordered_projects(s)[j].item_order,
{
    let r = ordered_projects(s);
    lemma_sort_by_key(s, rank_of::<ProjectStruct>());
    assert forall|i: int, j: int| 0 <= i <= j < r.len() implies r[i].item_order <= r[j].item_order by {
        assert(rank_of::<ProjectStruct>()(r[i]) <= rank_of::<ProjectStruct>()(r[j]));
    }
}

/// Ordering tasks that are already in listing order changes nothing.
pub proof fn lemma_tasks_reorder_idempotent(s: Seq<ItemStruct>)
    ensures
        ordered_tasks(ordered_tasks(s)) == ordered_tasks(s),
{
    lemma_sort_idempotent(s, rank_of::<ItemStruct>());
}

/// Ordering projects that are already in listing order changes nothing.
pub proof fn lemma_projects_reorder_idempotent(s: Seq<ProjectStruct>)
    ensures
        ordered_projects(ordered_projects(s)) == ordered_projects(s),
{
    lemma_sort_idempotent(s, rank_of::<ProjectStruct>());
}

} // verus!
