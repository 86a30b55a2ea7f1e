//! Parent/child task hierarchy.
use vstd::prelude::*;
use crate::processor::error::WbError;
use crate::processor::task::create::create_subtask;
use crate::processor::task::model::{Task, TaskStatus, copy_opt, copy_strings};
use crate::scheduler::dependency::string_views;

verus! {

/// Adds a subtask to `parent`: returns the updated parent (the child's id
/// appended to its children) and the new child; refused for an archived parent.
pub fn add_subtask(parent: &Task, title: &str) -> (r: Result<(Task, Task), WbError>)
    ensures
        r is Ok == (parent.status != TaskStatus::Archived),
        r matches Err(e) ==> e is Ai && e.message() == "不能为已归档的任务添加子任务"@,
        r matches Ok((p, c)) ==> {
            &&& c.title@ == title@
            &&& c.status == TaskStatus::Open
            &&& c.priority == parent.priority
            &&& c.source == parent.source
            &&& c.parent_id matches Some(pid) && pid@ == parent.id@
            &&& c.children_ids@.len() == 0
            &&& p.id == parent.id
            &&& p.title == parent.title
            &&& p.description == parent.description
            &&& p.status == parent.status
            &&& p.priority == parent.priority
            &&& p.source == parent.source
            &&& p.parent_id == parent.parent_id
            &&& p.children_ids@ == parent.children_ids@.push(c.id)
            &&& p.due_date == parent.due_date
            &&& p.tags@ == parent.tags@
            &&& p.created_at == parent.created_at
            &&& p.completed_at == parent.completed_at
            &&& p.feishu_task_id == parent.feishu_task_id
            &&& p.obsidian_path == parent.obsidian_path
        },
{
    if parent.status == TaskStatus::Archived {
        return Err(WbError::Ai(String::from_str("不能为已归档的任务添加子任务")));
    }
    let child = create_subtask(parent, title);
    let mut new_children = copy_strings(&parent.children_ids);
    new_children.push(child.id.clone());
    let updated = Task {
        id: parent.id.clone(),
        title: parent.title.clone(),
        description: copy_opt(&parent.description),
        status: parent.status,
        priority: parent.priority,
        source: parent.source,
        parent_id: copy_opt(&parent.parent_id),
        children_ids: new_children,
        due_date: copy_opt(&parent.due_date),
        tags: copy_strings(&parent.tags),
        created_at: parent.created_at.clone(),
        updated_at: crate::clock::now_rfc3339(),
        completed_at: copy_opt(&parent.completed_at),
        feishu_task_id: copy_opt(&parent.feishu_task_id),
        obsidian_path: copy_opt(&parent.obsidian_path),
    };
    Ok((updated, child))
}

/// Index of the first task in `all` (from `i`) with id `id`.
pub open spec fn task_index_from(all: Seq<Task>, id: Seq<char>, i: int) -> Option<int>
    decreases all.len() - i,
{
    if i < 0 || i >= all.len() {
        None
    } else if all[i].id@ == id {
        Some(i)
    } else {
        task_index_from(all, id, i + 1)
    }
}

/// The children of the task with id `id` (none when there is no such task).
pub open spec fn children_of(all: Seq<Task>, id: Seq<char>) -> Seq<Seq<char>> {
    match task_index_from(all, id, 0) {
        Some(i) => string_views(all[i].children_ids@),
        None => Seq::empty(),
    }
}

/// The children of every id of `level`, in order.
pub open spec fn next_level(all: Seq<Task>, level: Seq<Seq<char>>) -> Seq<Seq<char>>
    decreases level.len(),
{
    if level.len() == 0 {
        Seq::empty()
    } else {
        next_level(all, level.drop_last()) + children_of(all, level.last())
    }
}

/// The ids at depth `k` below `root` (one entry per path).
pub open spec fn level(all: Seq<Task>, root: Seq<char>, k: nat) -> Seq<Seq<char>>
    decreases k,
{
    if k == 0 {
        seq![root]
    } else {
        next_level(all, level(all, root, (k - 1) as nat))
    }
}

/// The ids at depths `1..=k` below `root`, level after level.
pub open spec fn descendants_upto(all: Seq<Task>, root: Seq<char>, k: nat) -> Seq<Seq<char>>
    decreases k,
{
    if k == 0 {
        Seq::empty()
    } else {
        descendants_upto(all, root, (k - 1) as nat) + level(all, root, k)
    }
}

/// The hierarchy below `root` is finite: some depth is empty.
pub open spec fn finite_below(all: Seq<Task>, root: Seq<char>) -> bool {
    exists|k: nat| level(all, root, k).len() == 0
}

/// All descendants of `root`, breadth first.
pub open spec fn descendants(all: Seq<Task>, root: Seq<char>) -> Seq<Seq<char>> {
    descendants_upto(all, root, choose|k: nat| level(all, root, k).len() == 0)
}

proof fn lemma_empty_level_stays(all: Seq<Task>, root: Seq<char>, k: nat, j: nat)
    requires
        level(all, root, k).len() == 0,
        k <= j,
    ensures
        level(all, root, j).len() == 0,
        descendants_upto(all, root, j) == descendants_upto(all, root, k),
    decreases j - k,
{
    if j > k {
        lemma_empty_level_stays(all, root, k, (j - 1) as nat);
        assert(level(all, root, j) =~= Seq::<Seq<char>>::empty());
        assert(descendants_upto(all, root, j) =~= descendants_upto(all, root, (j - 1) as nat));
    }
}

fn find_task(all: &Vec<Task>, id: &str) -> (r: Option<usize>)
    ensures
        r matches Some(i) ==> i < all@.len() && task_index_from(all@, id@, 0) == Some(i as int),
        r is None ==> task_index_from(all@, id@, 0) is None,
{
    let mut i: usize = 0;
    while i < all.len()
        invariant
            i <= all@.len(),
            task_index_from(all@, id@, 0) == task_index_from(all@, id@, i as int),
        decreases all.len() - i,
    {
        if crate::text::str_eq(all[i].id.as_str(), id) {
            return Some(i);
        }
        i = i + 1;
    }
    None
}

fn push_children(all: &Vec<Task>, id: &str, out: &mut Vec<String>)
    ensures
        string_views(final(out)@) == string_views(old(out)@) + children_of(all@, id@),
{
    let ghost start = string_views(out@);
    match find_task(all, id) {
        Some(i) => {
            let mut j: usize = 0;
            while j < all[i].children_ids.len()
                invariant
                    i < all@.len(),
                    j <= all@[i as int].children_ids@.len(),
                    string_views(out@) == start + string_views(all@[i as int].children_ids@).take(j as int),
                decreases all@[i as int].children_ids@.len() - j,
            {
                let ghost before = out@;
                out.push(all[i].children_ids[j].clone());
                proof {
                    let cv = string_views(all@[i as int].children_ids@);
                    assert(cv.take(j + 1) =~= cv.take(j as int).push(cv[j as int]));
                    assert(string_views(out@) =~= string_views(before).push(out@[out@.len() - 1]@));
                }
                j = j + 1;
            }
            assert(string_views(all@[i as int].children_ids@).take(j as int) =~= string_views(all@[i as int].children_ids@));
        },
        None => {
            assert(string_views(out@) =~= start + Seq::<Seq<char>>::empty());
        },
    }
}

/// All descendant ids of `task_id`, breadth first (a task reachable along two
/// paths appears once per path).  Tasks are looked up by id in `all_tasks`.
pub fn collect_descendant_ids(task_id: &str, all_tasks: &Vec<Task>) -> (r: Vec<String>)
    requires
        finite_below(all_tasks@, task_id@),
    ensures
        string_views(r@) == descendants(all_tasks@, task_id@),
{
    let ghost root = task_id@;
    let ghost kmax = choose|k: nat| level(all_tasks@, root, k).len() == 0;
    let mut result: Vec<String> = Vec::new();
    let mut current: Vec<String> = Vec::new();
    push_children(all_tasks, task_id, &mut current);
    proof {
        assert(string_views(current@) =~= level(all_tasks@, root, 1)) by {
            assert(level(all_tasks@, root, 0) == seq![root]);
            assert(seq![root].drop_last() =~= Seq::<Seq<char>>::empty());
            assert(next_level(all_tasks@, Seq::<Seq<char>>::empty()) == Seq::<Seq<char>>::empty());
            assert(seq![root].last() == root);
            assert(next_level(all_tasks@, seq![root]) =~= Seq::<Seq<char>>::empty() + children_of(all_tasks@, root));
        }
        assert(string_views(result@) =~= descendants_upto(all_tasks@, root, 0));
    }
    let ghost mut d: nat = 1;
    while current.len() > 0
        invariant
            d >= 1,
            string_views(current@) == level(all_tasks@, root, d),
            string_views(result@) == descendants_upto(all_tasks@, root, (d - 1) as nat),
            level(all_tasks@, root, kmax).len() == 0,
        decreases kmax - d,
    {
        proof {
            if kmax <= d {
                lemma_empty_level_stays(all_tasks@, root, kmax, d);
            }
        }
        let mut k: usize = 0;
        while k < current.len()
            invariant
                k <= current@.len(),
                string_views(result@) == descendants_upto(all_tasks@, root, (d - 1) as nat) + string_views(current@).take(k as int),
            decreases current.len() - k,
        {
            let ghost before = result@;
            result.push(current[k].clone());
            proof {
                let cv = string_views(current@);
                assert(cv.take(k + 1) =~= cv.take(k as int).push(cv[k as int]));
                assert(string_views(result@) =~= string_views(before).push(result@[result@.len() - 1]@));
            }
            k = k + 1;
        }
        assert(string_views(current@).take(k as int) =~= string_views(current@));
        let mut next: Vec<String> = Vec::new();
        let mut m: usize = 0;
        while m < current.len()
            invariant
                m <= current@.len(),
                string_views(next@) == next_level(all_tasks@, string_views(current@).take(m as int)),
            decreases current.len() - m,
        {
            push_children(all_tasks, current[m].as_str(), &mut next);
            proof {
                let c = string_views(current@);
                assert(c.take(m + 1).drop_last() =~= c.take(m as int));
                assert(c.take(m + 1).last() == current@[m as int]@);
            }
            m = m + 1;
        }
        assert(string_views(current@).take(m as int) =~= string_views(current@));
        current = next;
        proof {
            d = d + 1;
        }
    }
    proof {
        assert(level(all_tasks@, root, d).len() == 0);
        assert(descendants_upto(all_tasks@, root, d) =~= descendants_upto(all_tasks@, root, (d - 1) as nat));
        if kmax <= d {
            lemma_empty_level_stays(all_tasks@, root, kmax, d);
        } else {
            lemma_empty_level_stays(all_tasks@, root, d, kmax);
        }
    }
    result
}

/// Whether `task_id` is a descendant of `potential_ancestor_id` (the same
/// answer as membership in `collect_descendant_ids`).  Wherever it can be
/// asked, the relation is irreflexive, antisymmetric and transitive: see
/// `law_ancestry_is_a_strict_order` below.
pub fn is_ancestor(potential_ancestor_id: &str, task_id: &str, all_tasks: &Vec<Task>) -> (r: bool)
    requires
        finite_below(all_tasks@, potential_ancestor_id@),
    ensures
        r == descendants(all_tasks@, potential_ancestor_id@).contains(task_id@),
{
    let d = collect_descendant_ids(potential_ancestor_id, all_tasks);
    let mut i: usize = 0;
    while i < d.len()
        invariant
            i <= d@.len(),
            string_views(d@) == descendants(all_tasks@, potential_ancestor_id@),
            forall|k: int| 0 <= k < i ==> d@[k]@ != task_id@,
        decreases d.len() - i,
    {
        if crate::text::str_eq(d[i].as_str(), task_id) {
            assert(string_views(d@)[i as int] == task_id@);
            assert(string_views(d@).contains(task_id@));
            return true;
        }
        i = i + 1;
    }
    assert(!string_views(d@).contains(task_id@));
    false
}


proof fn lemma_next_level_contains(all: Seq<Task>, l: Seq<Seq<char>>, y: Seq<char>)
    ensures
        next_level(all, l).contains(y) <==> exists|i: int| 0 <= i < l.len() && #[trigger] children_of(all, l[i]).contains(y),
    decreases l.len(),
{
    if l.len() > 0 {
        let init = l.drop_last();
        lemma_next_level_contains(all, init, y);
        let a = next_level(all, init);
        let b = children_of(all, l.last());
        if (a + b).contains(y) {
            let q = choose|q: int| 0 <= q < (a + b).len() && (a + b)[q] == y;
            if q < a.len() {
                assert(a.contains(y));
                let i = choose|i: int| 0 <= i < init.len() && #[trigger] children_of(all, init[i]).contains(y);
                assert(l[i] == init[i]);
            } else {
                assert(b[q - a.len()] == y);
                assert(b.contains(y));
                assert(children_of(all, l[l.len() - 1]).contains(y));
            }
        }
        if exists|i: int| 0 <= i < l.len() && #[trigger] children_of(all, l[i]).contains(y) {
            let i = choose|i: int| 0 <= i < l.len() && #[trigger] children_of(all, l[i]).contains(y);
            if i < l.len() - 1 {
                assert(init[i] == l[i]);
                assert(a.contains(y));
                let q = choose|q: int| 0 <= q < a.len() && a[q] == y;
                assert((a + b)[q] == y);
            } else {
                let q = choose|q: int| 0 <= q < b.len() && b[q] == y;
                assert((a + b)[a.len() + q] == y);
            }
        }
    }
}

proof fn lemma_upto_contains(all: Seq<Task>, r: Seq<char>, n: nat, x: Seq<char>)
    ensures
        descendants_upto(all, r, n).contains(x) <==> exists|k: nat| 1 <= k <= n && #[trigger] level(all, r, k).contains(x),
    decreases n,
{
    if n > 0 {
        let m = (n - 1) as nat;
        lemma_upto_contains(all, r, m, x);
        let a = descendants_upto(all, r, m);
        let b = level(all, r, n);
        if (a + b).contains(x) {
            let q = choose|q: int| 0 <= q < (a + b).len() && (a + b)[q] == x;
            if q < a.len() {
                assert(a.contains(x));
            } else {
                assert(b[q - a.len()] == x);
                assert(level(all, r, n).contains(x));
            }
        }
        if exists|k: nat| 1 <= k <= n && #[trigger] level(all, r, k).contains(x) {
            let k = choose|k: nat| 1 <= k <= n && #[trigger] level(all, r, k).contains(x);
            if k < n {
                assert(a.contains(x));
                let q = choose|q: int| 0 <= q < a.len() && a[q] == x;
                assert((a + b)[q] == x);
            } else {
                let q = choose|q: int| 0 <= q < b.len() && b[q] == x;
                assert((a + b)[a.len() + q] == x);
            }
        }
    }
}

proof fn lemma_descendant_at_depth(all: Seq<Task>, r: Seq<char>, x: Seq<char>)
    requires
        finite_below(all, r),
    ensures
        descendants(all, r).contains(x) <==> exists|k: nat| 1 <= k && #[trigger] level(all, r, k).contains(x),
{
    let n = choose|k: nat| level(all, r, k).len() == 0;
    lemma_upto_contains(all, r, n, x);
    if exists|k: nat| 1 <= k && #[trigger] level(all, r, k).contains(x) {
        let k = choose|k: nat| 1 <= k && #[trigger] level(all, r, k).contains(x);
        if k > n {
            lemma_empty_level_stays(all, r, n, k);
        }
        assert(1 <= k <= n && level(all, r, k).contains(x));
    }
}

proof fn lemma_level_compose(all: Seq<Task>, a: Seq<char>, b: Seq<char>, c: Seq<char>, k: nat, j: nat)
    requires
        level(all, a, k).contains(b),
        level(all, b, j).contains(c),
    ensures
        level(all, a, k + j).contains(c),
    decreases j,
{
    if j == 0 {
        assert(level(all, b, 0) =~= seq![b]);
        assert(c == b);
    } else {
        let m = (j - 1) as nat;
        lemma_next_level_contains(all, level(all, b, m), c);
        let i = choose|i: int| 0 <= i < level(all, b, m).len() && #[trigger] children_of(all, level(all, b, m)[i]).contains(c);
        let z = level(all, b, m)[i];
        assert(level(all, b, m).contains(z));
        lemma_level_compose(all, a, b, z, k, m);
        let la = level(all, a, (k + m) as nat);
        let q = choose|q: int| 0 <= q < la.len() && la[q] == z;
        assert(children_of(all, la[q]).contains(c));
        lemma_next_level_contains(all, la, c);
        assert(level(all, a, k + j) == next_level(all, la));
    }
}

/// A task found below itself at depth `k` is found below itself again at
/// some depth of at least `t`: the cycle repeats.
proof fn lemma_cycle_recurs(all: Seq<Task>, a: Seq<char>, k: nat, t: nat) -> (j: nat)
    requires
        1 <= k,
        level(all, a, k).contains(a),
    ensures
        j >= t,
        level(all, a, j).contains(a),
    decreases t,
{
    if t == 0 {
        assert(level(all, a, 0) =~= seq![a]);
        assert(level(all, a, 0)[0] == a);
        0
    } else {
        let j0 = lemma_cycle_recurs(all, a, k, (t - 1) as nat);
        lemma_level_compose(all, a, a, a, j0, k);
        j0 + k
    }
}

/// Where the hierarchy below `a` is finite, `a` is not among its own
/// descendants.
proof fn lemma_not_below_itself(all: Seq<Task>, a: Seq<char>)
    requires
        finite_below(all, a),
    ensures
        !descendants(all, a).contains(a),
{
    lemma_descendant_at_depth(all, a, a);
    if descendants(all, a).contains(a) {
        let k = choose|k: nat| 1 <= k && #[trigger] level(all, a, k).contains(a);
        let m = choose|m: nat| level(all, a, m).len() == 0;
        let j = lemma_cycle_recurs(all, a, k, m);
        lemma_empty_level_stays(all, a, m, j);
    }
}

/// Wherever `is_ancestor` can be asked (the hierarchies below the tasks
/// asked about are finite, as they are in a forest), being an ancestor, that
/// is holding the other among one's descendants, is irreflexive,
/// antisymmetric and transitive.
pub proof fn law_ancestry_is_a_strict_order(all: Seq<Task>, a: Seq<char>, b: Seq<char>, c: Seq<char>)
    requires
        finite_below(all, a),
        finite_below(all, b),
    ensures
        !descendants(all, a).contains(a),
        descendants(all, a).contains(b) ==> !descendants(all, b).contains(a),
        descendants(all, a).contains(b) && descendants(all, b).contains(c) ==> descendants(all, a).contains(c),
{
    lemma_not_below_itself(all, a);
    lemma_descendant_at_depth(all, a, a);
    lemma_descendant_at_depth(all, a, b);
    lemma_descendant_at_depth(all, b, a);
    lemma_descendant_at_depth(all, b, c);
    lemma_descendant_at_depth(all, a, c);
    if descendants(all, a).contains(b) {
        let k1 = choose|k: nat| 1 <= k && #[trigger] level(all, a, k).contains(b);
        if descendants(all, b).contains(a) {
            let k2 = choose|k: nat| 1 <= k && #[trigger] level(all, b, k).contains(a);
            lemma_level_compose(all, a, b, a, k1, k2);
            assert(level(all, a, k1 + k2).contains(a));
        }
        if descendants(all, b).contains(c) {
            let k2 = choose|k: nat| 1 <= k && #[trigger] level(all, b, k).contains(c);
            lemma_level_compose(all, a, b, c, k1, k2);
            assert(level(all, a, k1 + k2).contains(c));
        }
    }
}

} // verus!
