//! Task dependency graph (DAG) with cycle detection and topological ordering.
use vstd::prelude::*;

verus! {

/// The error of `topological_order`.
#[derive(Debug)]
pub enum DependencyError {
    /// No order exists; the listed nodes (comma separated) could not be ordered.
    CycleDetected(String),
}

impl DependencyError {
    /// The error's message.
    pub fn to_string(&self) -> (r: String)
        ensures
            r@ == "cyclic dependency detected involving: "@ + match self {
                DependencyError::CycleDetected(m) => m@,
            },
    {
        match self {
            DependencyError::CycleDetected(m) => {
                let mut r = String::from_str("cyclic dependency detected involving: ");
                crate::text::append_str(&mut r, m.as_str());
                r
            },
        }
    }
}

struct DepEntry {
    task_id: String,
    deps: Vec<String>,
}

/// A directed graph of task dependencies: each registered task id maps to the
/// set of task ids it depends on (which must complete before it can run).
pub struct DependencyGraph {
    entries: Vec<DepEntry>,
}

/// A dependency graph's nodes: every task and every task it depends on.
pub open spec fn graph_nodes(g: Map<Seq<char>, Set<Seq<char>>>) -> Set<Seq<char>> {
    Set::new(|x: Seq<char>| g.contains_key(x) || exists|t: Seq<char>| g.contains_key(t) && g[t].contains(x))
}

/// `o` lists every node of `g` once, each after all of its dependencies.
pub open spec fn is_topological_order(g: Map<Seq<char>, Set<Seq<char>>>, o: Seq<Seq<char>>) -> bool {
    &&& o.no_duplicates()
    &&& o.to_set() == graph_nodes(g)
    &&& forall|i: int, j: int|
        0 <= i < o.len() && 0 <= j < o.len() && g.contains_key(o[i]) && g[o[i]].contains(o[j])
            ==> j < i
}

/// The ids named by a list of strings.
pub open spec fn str_set(v: Seq<&str>) -> Set<Seq<char>> {
    Set::new(|x: Seq<char>| exists|i: int| 0 <= i < v.len() && v[i]@ == x)
}

/// The views of a list of strings.
pub open spec fn string_views(v: Seq<String>) -> Seq<Seq<char>> {
    v.map_values(|s: String| s@)
}

/// `parts` joined with `sep` between consecutive parts.
pub open spec fn join_with(parts: Seq<Seq<char>>, sep: Seq<char>) -> Seq<char>
    decreases parts.len(),
{
    if parts.len() == 0 {
        Seq::empty()
    } else if parts.len() == 1 {
        parts[0]
    } else {
        join_with(parts.drop_last(), sep) + sep + parts.last()
    }
}

/// Joins `parts` with `sep`.
pub fn join_strings(parts: &Vec<String>, sep: &str) -> (r: String)
    ensures
        r@ == join_with(string_views(parts@), sep@),
{
    let mut r = String::new();
    let mut i: usize = 0;
    while i < parts.len()
        invariant
            i <= parts@.len(),
            r@ == join_with(string_views(parts@).take(i as int), sep@),
        decreases parts.len() - i,
    {
        if i > 0 {
            crate::text::append_str(&mut r, sep);
        }
        crate::text::append_str(&mut r, parts[i].as_str());
        proof {
            let t = string_views(parts@).take(i + 1);
            assert(t.drop_last() =~= string_views(parts@).take(i as int));
            assert(t.last() == parts@[i as int]@);
        }
        i = i + 1;
    }
    assert(string_views(parts@).take(parts@.len() as int) =~= string_views(parts@));
    r
}

/// Some position listed in `v` names `x` in `nodes`.
spec fn covers(nodes: Seq<String>, v: Seq<usize>, x: Seq<char>) -> bool {
    exists|k: int| 0 <= k < v.len() && nodes[v[k] as int]@ == x
}

/// Some position listed in `d` is not yet emitted.
spec fn blocked(d: Seq<usize>, emitted: Seq<bool>) -> bool {
    exists|k: int| 0 <= k < d.len() && !emitted[d[k] as int]
}

/// Number of `false` entries.
pub open spec fn count_false(s: Seq<bool>) -> nat
    decreases s.len(),
{
    if s.len() == 0 {
        0
    } else {
        count_false(s.drop_last()) + if s.last() {
            0nat
        } else {
            1nat
        }
    }
}

proof fn lemma_count_false_set(s: Seq<bool>, i: int)
    requires
        0 <= i < s.len(),
        !s[i],
    ensures
        count_false(s.update(i, true)) + 1 == count_false(s),
    decreases s.len(),
{
    if i == s.len() - 1 {
        assert(s.update(i, true).drop_last() =~= s.drop_last());
    } else {
        lemma_count_false_set(s.drop_last(), i);
        assert(s.update(i, true).drop_last() =~= s.drop_last().update(i, true));
    }
}

/// The first position of `o` holding an element of `s`, where one exists.
proof fn lemma_first_in(o: Seq<Seq<char>>, s: Set<Seq<char>>, i: int) -> (f: int)
    requires
        0 <= i < o.len(),
        s.contains(o[i]),
    ensures
        0 <= f <= i,
        s.contains(o[f]),
        forall|j: int| 0 <= j < f ==> !s.contains(o[j]),
    decreases i,
{
    if exists|j: int| 0 <= j < i && s.contains(o[j]) {
        let j = choose|j: int| 0 <= j < i && s.contains(o[j]);
        lemma_first_in(o, s, j)
    } else {
        i
    }
}

/// `x` is a task of `g` that depends on some member of `s`.
#[verifier::opaque]
pub open spec fn depends_within(g: Map<Seq<char>, Set<Seq<char>>>, s: Set<Seq<char>>, x: Seq<char>) -> bool {
    g.contains_key(x) && exists|y: Seq<char>| s.contains(y) && g[x].contains(y)
}

/// Every member of `s` is a node of `g` that depends on a member of `s`: no
/// member of such a set can be placed in an order of `g`.
pub open spec fn unorderable(g: Map<Seq<char>, Set<Seq<char>>>, s: Set<Seq<char>>) -> bool {
    forall|x: Seq<char>| #[trigger] s.contains(x) ==> graph_nodes(g).contains(x) && depends_within(g, s, x)
}

/// A non-empty set of nodes each of which depends on a member of the set
/// (a set closed under "has a dependency in it") rules out any topological order.
pub proof fn lemma_stuck_set_no_order(g: Map<Seq<char>, Set<Seq<char>>>, s: Set<Seq<char>>, o: Seq<Seq<char>>)
    requires
        exists|x: Seq<char>| s.contains(x),
        forall|x: Seq<char>| #[trigger] s.contains(x) ==> graph_nodes(g).contains(x),
        forall|x: Seq<char>| #[trigger] s.contains(x) ==> depends_within(g, s, x),
    ensures
        !is_topological_order(g, o),
{
    if is_topological_order(g, o) {
        let x = choose|x: Seq<char>| s.contains(x);
        let i = lemma_in_order(g, o, x);
        let f = lemma_first_in(o, s, i);
        let z = o[f];
        assert(depends_within(g, s, z));
        reveal(depends_within);
        let y = choose|y: Seq<char>| s.contains(y) && g[z].contains(y);
        let j = lemma_in_order(g, o, y);
        lemma_order_respects(g, o, f, j);
    }
}

proof fn lemma_in_order(g: Map<Seq<char>, Set<Seq<char>>>, o: Seq<Seq<char>>, x: Seq<char>) -> (i: int)
    requires
        is_topological_order(g, o),
        graph_nodes(g).contains(x),
    ensures
        0 <= i < o.len() && o[i] == x,
{
    assert(o.to_set().contains(x));
    choose|i: int| 0 <= i < o.len() && o[i] == x
}

proof fn lemma_order_respects(g: Map<Seq<char>, Set<Seq<char>>>, o: Seq<Seq<char>>, i: int, j: int)
    requires
        is_topological_order(g, o),
        0 <= i < o.len(),
        0 <= j < o.len(),
        g.contains_key(o[i]),
        g[o[i]].contains(o[j]),
    ensures
        j < i,
{
}

impl DependencyGraph {
    spec fn has_task(self, t: Seq<char>) -> bool {
        exists|i: int| 0 <= i < self.entries@.len() && self.entries@[i].task_id@ == t
    }

    spec fn depends(self, t: Seq<char>, d: Seq<char>) -> bool {
        exists|i: int, j: int|
            0 <= i < self.entries@.len() && self.entries@[i].task_id@ == t && 0 <= j
                < self.entries@[i].deps@.len() && self.entries@[i].deps@[j]@ == d
    }

    /// Each registered task id and the set of ids it depends on.
    pub closed spec fn view(self) -> Map<Seq<char>, Set<Seq<char>>> {
        Map::new(|t: Seq<char>| self.has_task(t), |t: Seq<char>| Set::new(|d: Seq<char>| self.depends(t, d)))
    }

    pub fn new() -> (g: Self)
        ensures
            g.view() == Map::<Seq<char>, Set<Seq<char>>>::empty(),
    {
        let g = DependencyGraph { entries: Vec::new() };
        assert(g.view() =~= Map::<Seq<char>, Set<Seq<char>>>::empty());
        g
    }

    /// Registers a task with its dependencies; dependencies already registered
    /// for it are kept (merged, not replaced).
    pub fn add_task(&mut self, task_id: &str, depends_on: Vec<&str>)
        ensures
            final(self).view() == old(self).view().insert(
                task_id@,
                if old(self).view().contains_key(task_id@) {
                    old(self).view()[task_id@]
                } else {
                    Set::empty()
                }.union(str_set(depends_on@)),
            ),
    {
        let ghost old_self = *self;
        let mut idx: usize = 0;
        let mut found = false;
        while idx < self.entries.len()
            invariant_except_break
                !found,
            invariant
                *self == old_self,
                idx <= self.entries@.len(),
                forall|k: int| 0 <= k < idx ==> self.entries@[k].task_id@ != task_id@,
            ensures
                *self == old_self,
                found ==> idx < self.entries@.len() && self.entries@[idx as int].task_id@ == task_id@,
                !found ==> forall|k: int|
                    0 <= k < self.entries@.len() ==> self.entries@[k].task_id@ != task_id@,
            decreases self.entries.len() - idx,
        {
            if crate::text::str_eq(self.entries[idx].task_id.as_str(), task_id) {
                found = true;
                break;
            }
            idx = idx + 1;
        }
        if found {
            let mut e = self.entries.remove(idx);
            let ghost e0 = e;
            let mut j: usize = 0;
            while j < depends_on.len()
                invariant
                    e.task_id == e0.task_id,
                    e0.task_id@ == task_id@,
                    e.deps@.len() == e0.deps@.len() + j,
                    j <= depends_on@.len(),
                    forall|k: int| 0 <= k < e0.deps@.len() ==> e.deps@[k] == e0.deps@[k],
                    forall|k: int| 0 <= k < j ==> e.deps@[e0.deps@.len() + k]@ == depends_on@[k]@,
                decreases depends_on.len() - j,
            {
                e.deps.push(String::from_str(depends_on[j]));
                j = j + 1;
            }
            self.entries.insert(idx, e);
            proof {
                let new_entries = self.entries@;
                assert(new_entries == old_self.entries@.update(idx as int, e));
                let m = old_self.view().insert(
                    task_id@,
                    old_self.view()[task_id@].union(str_set(depends_on@)),
                );
                assert(old_self.has_task(task_id@));
                assert forall|t: Seq<char>| #[trigger] self.has_task(t) == m.contains_key(t) by {
                    if self.has_task(t) {
                        let i = choose|i: int|
                            0 <= i < self.entries@.len() && self.entries@[i].task_id@ == t;
                        assert(old_self.entries@[i].task_id@ == t);
                    }
                    if old_self.has_task(t) {
                        let i = choose|i: int|
                            0 <= i < old_self.entries@.len() && old_self.entries@[i].task_id@ == t;
                        assert(self.entries@[i].task_id@ == t);
                    }
                }
                assert forall|t: Seq<char>, d: Seq<char>|
                    self.has_task(t) implies #[trigger] self.depends(t, d) == m[t].contains(d) by {
                    if self.depends(t, d) {
                        let (i, k) = choose|i: int, k: int|
                            0 <= i < self.entries@.len() && self.entries@[i].task_id@ == t && 0 <= k
                                < self.entries@[i].deps@.len() && self.entries@[i].deps@[k]@ == d;
                        if i == idx {
                            if k < e0.deps@.len() {
                                assert(old_self.depends(t, d));
                            } else {
                                let q = k - e0.deps@.len();
                                assert(depends_on@[q]@ == d);
                                assert(str_set(depends_on@).contains(d));
                            }
                        } else {
                            assert(old_self.depends(t, d));
                        }
                    }
                    if m[t].contains(d) {
                        if old_self.has_task(t) && old_self.view()[t].contains(d) {
                            let (i, k) = choose|i: int, k: int|
                                0 <= i < old_self.entries@.len() && old_self.entries@[i].task_id@
                                    == t && 0 <= k < old_self.entries@[i].deps@.len()
                                    && old_self.entries@[i].deps@[k]@ == d;
                            assert(self.entries@[i].deps@[k]@ == d);
                        } else {
                            assert(t == task_id@);
                            assert(str_set(depends_on@).contains(d));
                            let q = choose|q: int| 0 <= q < depends_on@.len() && depends_on@[q]@ == d;
                            assert(self.entries@[idx as int].deps@[e0.deps@.len() + q]@ == d);
                        }
                    }
                }
                assert forall|t: Seq<char>| self.has_task(t) implies #[trigger] self.view()[t]
                    =~= m[t] by {
                    assert forall|d: Seq<char>| #[trigger] self.view()[t].contains(d) == m[t].contains(d) by {
                        assert(self.depends(t, d) == m[t].contains(d));
                    }
                }
                assert(self.view() =~= m);
            }
        } else {
            let mut deps: Vec<String> = Vec::new();
            let mut j: usize = 0;
            while j < depends_on.len()
                invariant
                    deps@.len() == j,
                    j <= depends_on@.len(),
                    forall|k: int| 0 <= k < j ==> deps@[k]@ == depends_on@[k]@,
                decreases depends_on.len() - j,
            {
                deps.push(String::from_str(depends_on[j]));
                j = j + 1;
            }
            let e = DepEntry { task_id: String::from_str(task_id), deps };
            self.entries.push(e);
            proof {
                let m = old_self.view().insert(task_id@, Set::<Seq<char>>::empty().union(str_set(depends_on@)));
                assert(!old_self.has_task(task_id@));
                let n = old_self.entries@.len() as int;
                assert forall|t: Seq<char>| #[trigger] self.has_task(t) == m.contains_key(t) by {
                    if old_self.has_task(t) {
                        let i = choose|i: int|
                            0 <= i < old_self.entries@.len() && old_self.entries@[i].task_id@ == t;
                        assert(self.entries@[i].task_id@ == t);
                    }
                    if t == task_id@ {
                        assert(self.entries@[n].task_id@ == t);
                    }
                }
                assert forall|t: Seq<char>, d: Seq<char>|
                    self.has_task(t) implies #[trigger] self.depends(t, d) == m[t].contains(d) by {
                    if self.depends(t, d) {
                        let (i, k) = choose|i: int, k: int|
                            0 <= i < self.entries@.len() && self.entries@[i].task_id@ == t && 0 <= k
                                < self.entries@[i].deps@.len() && self.entries@[i].deps@[k]@ == d;
                        if i == n {
                            assert(depends_on@[k]@ == d);
                            assert(str_set(depends_on@).contains(d));
                        } else {
                            assert(old_self.depends(t, d));
                        }
                    }
                    if m[t].contains(d) {
                        if t == task_id@ {
                            assert(str_set(depends_on@).contains(d));
                            let q = choose|q: int| 0 <= q < depends_on@.len() && depends_on@[q]@ == d;
                            assert(self.entries@[n].deps@[q]@ == d);
                        } else {
                            let (i, k) = choose|i: int, k: int|
                                0 <= i < old_self.entries@.len() && old_self.entries@[i].task_id@
                                    == t && 0 <= k < old_self.entries@[i].deps@.len()
                                    && old_self.entries@[i].deps@[k]@ == d;
                            assert(self.entries@[i].deps@[k]@ == d);
                        }
                    }
                }
                assert forall|t: Seq<char>| self.has_task(t) implies #[trigger] self.view()[t]
                    =~= m[t] by {
                    assert forall|d: Seq<char>| #[trigger] self.view()[t].contains(d) == m[t].contains(d) by {
                        assert(self.depends(t, d) == m[t].contains(d));
                    }
                }
                assert(self.view() =~= m);
            }
        }
    }

    /// Whether `task_id` can run given the completed task ids: true when the
    /// task is unknown or every one of its dependencies is completed.
    pub fn can_run(&self, task_id: &str, completed: &[&str]) -> (r: bool)
        ensures
            r == (!self.view().contains_key(task_id@) || self.view()[task_id@].subset_of(
                str_set(completed@),
            )),
    {
        let mut i: usize = 0;
        while i < self.entries.len()
            invariant
                i <= self.entries@.len(),
                forall|k: int, j: int|
                    0 <= k < i && self.entries@[k].task_id@ == task_id@ && 0 <= j
                        < self.entries@[k].deps@.len() ==> str_set(completed@).contains(
                        self.entries@[k].deps@[j]@,
                    ),
            decreases self.entries.len() - i,
        {
            if crate::text::str_eq(self.entries[i].task_id.as_str(), task_id) {
                let mut j: usize = 0;
                while j < self.entries[i].deps.len()
                    invariant
                        i < self.entries@.len(),
                        self.entries@[i as int].task_id@ == task_id@,
                        j <= self.entries@[i as int].deps@.len(),
                        forall|q: int|
                            0 <= q < j ==> str_set(completed@).contains(
                                self.entries@[i as int].deps@[q]@,
                            ),
                    decreases self.entries@[i as int].deps@.len() - j,
                {
                    if !Self::in_list(self.entries[i].deps[j].as_str(), completed) {
                        proof {
                            assert(self.depends(task_id@, self.entries@[i as int].deps@[j as int]@));
                            assert(self.view()[task_id@].contains(self.entries@[i as int].deps@[j as int]@));
                        }
                        return false;
                    }
                    j = j + 1;
                }
            }
            i = i + 1;
        }
        proof {
            if self.view().contains_key(task_id@) {
                assert forall|d: Seq<char>| self.view()[task_id@].contains(d) implies str_set(completed@).contains(d) by {
                    assert(self.depends(task_id@, d));
                }
            }
        }
        true
    }

    fn in_list(x: &str, list: &[&str]) -> (r: bool)
        ensures
            r == str_set(list@).contains(x@),
    {
        let mut i: usize = 0;
        while i < list.len()
            invariant
                i <= list@.len(),
                forall|k: int| 0 <= k < i ==> list@[k]@ != x@,
            decreases list.len() - i,
        {
            if crate::text::str_eq(list[i], x) {
                return true;
            }
            i = i + 1;
        }
        false
    }

    fn index_of(nodes: &Vec<String>, x: &str) -> (r: Option<usize>)
        ensures
            r matches Some(i) ==> i < nodes@.len() && nodes@[i as int]@ == x@,
            r is None ==> forall|k: int| 0 <= k < nodes@.len() ==> nodes@[k]@ != x@,
    {
        let mut i: usize = 0;
        while i < nodes.len()
            invariant
                i <= nodes@.len(),
                forall|k: int| 0 <= k < i ==> nodes@[k]@ != x@,
            decreases nodes.len() - i,
        {
            if crate::text::str_eq(nodes[i].as_str(), x) {
                return Some(i);
            }
            i = i + 1;
        }
        None
    }

    /// Adds `x` to `nodes` unless it is already there.
    fn add_node(nodes: &mut Vec<String>, x: &str)
        requires
            string_views(old(nodes)@).no_duplicates(),
        ensures
            string_views(final(nodes)@).no_duplicates(),
            string_views(final(nodes)@).contains(x@),
            forall|y: Seq<char>| #[trigger]
                string_views(final(nodes)@).contains(y) ==> (string_views(old(nodes)@).contains(y)
                    || y == x@),
            forall|y: Seq<char>| #[trigger]
                string_views(old(nodes)@).contains(y) ==> string_views(final(nodes)@).contains(y),
    {
        let ghost before = string_views(nodes@);
        match Self::index_of(nodes, x) {
            Some(i) => {
                assert(before[i as int] == x@);
                assert(before.contains(x@));
            },
            None => {
                nodes.push(String::from_str(x));
                proof {
                    let after = string_views(nodes@);
                    assert(after =~= before.push(x@));
                    assert(!before.contains(x@));
                    assert(after.no_duplicates()) by {
                        assert forall|a: int, b: int| 0 <= a < after.len() && 0 <= b < after.len() && a != b implies after[a] != after[b] by {
                            if a < before.len() && b < before.len() {
                            } else if a < before.len() {
                                assert(before.contains(before[a]));
                            } else {
                                assert(before.contains(before[b]));
                            }
                        }
                    }
                    assert forall|y: Seq<char>| after.contains(y) <==> (before.contains(y) || y == x@) by {
                        if after.contains(y) {
                            let k = choose|k: int| 0 <= k < after.len() && after[k] == y;
                            if k < before.len() {
                                assert(before[k] == y);
                            }
                        }
                        if before.contains(y) {
                            let k = choose|k: int| 0 <= k < before.len() && before[k] == y;
                            assert(after[k] == y);
                        }
                        if y == x@ {
                            assert(after[before.len() as int] == y);
                        }
                    }
                }
            },
        }
    }

    /// All nodes of the graph, each once.
    fn collect_nodes(&self) -> (nodes: Vec<String>)
        ensures
            string_views(nodes@).no_duplicates(),
            forall|x: Seq<char>| string_views(nodes@).contains(x) <==> graph_nodes(self.view()).contains(x),
    {
        let mut nodes: Vec<String> = Vec::new();
        let mut i: usize = 0;
        while i < self.entries.len()
            invariant
                i <= self.entries@.len(),
                string_views(nodes@).no_duplicates(),
                forall|y: Seq<char>| #[trigger] string_views(nodes@).contains(y) ==> graph_nodes(self.view()).contains(y),
                forall|k: int| 0 <= k < i ==> string_views(nodes@).contains(#[trigger] self.entries@[k].task_id@),
                forall|k: int, q: int|
                    0 <= k < i && 0 <= q < self.entries@[k].deps@.len() ==> string_views(nodes@).contains(
                        #[trigger] self.entries@[k].deps@[q]@,
                    ),
            decreases self.entries.len() - i,
        {
            proof {
                let t = self.entries@[i as int].task_id@;
                assert(self.has_task(t));
                assert(self.view().contains_key(t));
            }
            Self::add_node(&mut nodes, self.entries[i].task_id.as_str());
            let mut j: usize = 0;
            while j < self.entries[i].deps.len()
                invariant
                    i < self.entries@.len(),
                    j <= self.entries@[i as int].deps@.len(),
                    string_views(nodes@).no_duplicates(),
                    forall|y: Seq<char>| #[trigger] string_views(nodes@).contains(y) ==> graph_nodes(self.view()).contains(y),
                    forall|k: int| 0 <= k <= i ==> string_views(nodes@).contains(#[trigger] self.entries@[k].task_id@),
                    forall|k: int, q: int|
                        ((0 <= k < i && 0 <= q < self.entries@[k].deps@.len()) || (k == i && 0 <= q < j))
                            ==> string_views(nodes@).contains(#[trigger] self.entries@[k].deps@[q]@),
                decreases self.entries@[i as int].deps@.len() - j,
            {
                proof {
                    let t = self.entries@[i as int].task_id@;
                    let d = self.entries@[i as int].deps@[j as int]@;
                    assert(self.has_task(t));
                    assert(self.depends(t, d));
                    assert(self.view().contains_key(t) && self.view()[t].contains(d));
                }
                Self::add_node(&mut nodes, self.entries[i].deps[j].as_str());
                j = j + 1;
            }
            i = i + 1;
        }
        proof {
            assert forall|x: Seq<char>|
                graph_nodes(self.view()).contains(x) implies string_views(nodes@).contains(x) by {
                if self.view().contains_key(x) {
                    assert(self.has_task(x));
                    let k = choose|k: int| 0 <= k < self.entries@.len() && self.entries@[k].task_id@ == x;
                    assert(string_views(nodes@).contains(self.entries@[k].task_id@));
                } else {
                    let t = choose|t: Seq<char>| self.view().contains_key(t) && self.view()[t].contains(x);
                    assert(self.depends(t, x));
                    let (k, q) = choose|k: int, q: int|
                        0 <= k < self.entries@.len() && self.entries@[k].task_id@ == t && 0 <= q
                            < self.entries@[k].deps@.len() && self.entries@[k].deps@[q]@ == x;
                    assert(string_views(nodes@).contains(self.entries@[k].deps@[q]@));
                }
            }
        }
        nodes
    }

    /// Positions in `nodes` of the dependencies of `nodes[n]`.
    fn dep_indices(&self, nodes: &Vec<String>, n: usize) -> (v: Vec<usize>)
        requires
            n < nodes@.len(),
            forall|x: Seq<char>| string_views(nodes@).contains(x) <==> graph_nodes(self.view()).contains(x),
        ensures
            forall|k: int| 0 <= k < v@.len() ==> #[trigger] v@[k] < nodes@.len() && self.depends(nodes@[n as int]@, nodes@[v@[k] as int]@),
            forall|x: Seq<char>| #[trigger] self.depends(nodes@[n as int]@, x) ==> exists|k: int| 0 <= k < v@.len() && nodes@[v@[k] as int]@ == x,
    {
        let ghost t = nodes@[n as int]@;
        let mut v: Vec<usize> = Vec::new();
        let mut i: usize = 0;
        while i < self.entries.len()
            invariant
                t == nodes@[n as int]@,
                n < nodes@.len(),
                i <= self.entries@.len(),
                forall|x: Seq<char>| string_views(nodes@).contains(x) <==> graph_nodes(self.view()).contains(x),
                forall|k: int| 0 <= k < v@.len() ==> #[trigger] v@[k] < nodes@.len() && self.depends(t, nodes@[v@[k] as int]@),
                forall|a: int, q: int| 0 <= a < i && self.entries@[a].task_id@ == t && 0 <= q < self.entries@[a].deps@.len()
                    ==> covers(nodes@, v@, #[trigger] self.entries@[a].deps@[q]@),
            decreases self.entries.len() - i,
        {
            if crate::text::str_eq(self.entries[i].task_id.as_str(), nodes[n].as_str()) {
                let mut j: usize = 0;
                while j < self.entries[i].deps.len()
                    invariant
                        t == nodes@[n as int]@,
                        n < nodes@.len(),
                        i < self.entries@.len(),
                        self.entries@[i as int].task_id@ == t,
                        j <= self.entries@[i as int].deps@.len(),
                        forall|x: Seq<char>| string_views(nodes@).contains(x) <==> graph_nodes(self.view()).contains(x),
                        forall|k: int| 0 <= k < v@.len() ==> #[trigger] v@[k] < nodes@.len() && self.depends(t, nodes@[v@[k] as int]@),
                        forall|a: int, q: int| ((0 <= a < i && self.entries@[a].task_id@ == t && 0 <= q < self.entries@[a].deps@.len()) || (a == i && 0 <= q < j))
                            ==> covers(nodes@, v@, #[trigger] self.entries@[a].deps@[q]@),
                    decreases self.entries@[i as int].deps@.len() - j,
                {
                    let ghost d = self.entries@[i as int].deps@[j as int]@;
                    proof {
                        assert(self.has_task(t));
                        assert(self.depends(t, d));
                        assert(self.view().contains_key(t) && self.view()[t].contains(d));
                        assert(graph_nodes(self.view()).contains(d));
                        assert(string_views(nodes@).contains(d));
                    }
                    match Self::index_of(nodes, self.entries[i].deps[j].as_str()) {
                        Some(p) => {
                            let ghost old_v = v@;
                            v.push(p);
                            proof {
                                assert forall|a: int, q: int| ((0 <= a < i && self.entries@[a].task_id@ == t && 0 <= q < self.entries@[a].deps@.len()) || (a == i && 0 <= q < j + 1))
                                    implies covers(nodes@, v@, #[trigger] self.entries@[a].deps@[q]@) by {
                                    if a == i && q == j {
                                        assert(nodes@[v@[old_v.len() as int] as int]@ == self.entries@[a].deps@[q]@);
                                    } else {
                                        assert(covers(nodes@, old_v, self.entries@[a].deps@[q]@));
                                        let k = choose|k: int| 0 <= k < old_v.len() && nodes@[old_v[k] as int]@ == self.entries@[a].deps@[q]@;
                                        assert(v@[k] == old_v[k]);
                                    }
                                }
                            }
                        },
                        None => {
                            proof {
                                let k = choose|k: int| 0 <= k < string_views(nodes@).len() && string_views(nodes@)[k] == d;
                                assert(nodes@[k]@ == d);
                            }
                        },
                    }
                    j = j + 1;
                }
            }
            i = i + 1;
        }
        proof {
            assert forall|x: Seq<char>| #[trigger] self.depends(t, x) implies exists|k: int| 0 <= k < v@.len() && nodes@[v@[k] as int]@ == x by {
                let (a, q) = choose|a: int, q: int|
                    0 <= a < self.entries@.len() && self.entries@[a].task_id@ == t && 0 <= q
                        < self.entries@[a].deps@.len() && self.entries@[a].deps@[q]@ == x;
                assert(covers(nodes@, v@, self.entries@[a].deps@[q]@));
            }
        }
        v
    }

    fn build_dep_indices(&self, nodes: &Vec<String>) -> (deps_idx: Vec<Vec<usize>>)
        requires
            forall|x: Seq<char>| string_views(nodes@).contains(x) <==> graph_nodes(self.view()).contains(x),
        ensures
            deps_idx@.len() == nodes@.len(),
            forall|a: int, k: int| 0 <= a < nodes@.len() && 0 <= k < deps_idx@[a]@.len() ==> #[trigger] deps_idx@[a]@[k] < nodes@.len() && self.depends(nodes@[a]@, nodes@[deps_idx@[a]@[k] as int]@),
            forall|a: int, x: Seq<char>| 0 <= a < nodes@.len() && #[trigger] self.depends(nodes@[a]@, x) ==> covers(nodes@, deps_idx@[a]@, x),
    {
        let n = nodes.len();
        let mut deps_idx: Vec<Vec<usize>> = Vec::new();
        let mut i: usize = 0;
        while i < n
            invariant
                n == nodes@.len(),
                i <= n,
                deps_idx@.len() == i,
                forall|x: Seq<char>| string_views(nodes@).contains(x) <==> graph_nodes(self.view()).contains(x),
                forall|a: int, k: int| 0 <= a < i && 0 <= k < deps_idx@[a]@.len() ==> #[trigger] deps_idx@[a]@[k] < n && self.depends(nodes@[a]@, nodes@[deps_idx@[a]@[k] as int]@),
                forall|a: int, x: Seq<char>| 0 <= a < i && #[trigger] self.depends(nodes@[a]@, x) ==> covers(nodes@, deps_idx@[a]@, x),
            decreases n - i,
        {
            let v = self.dep_indices(&nodes, i);
            deps_idx.push(v);
            proof {
                assert forall|x: Seq<char>| #[trigger] self.depends(nodes@[i as int]@, x) implies covers(nodes@, deps_idx@[i as int]@, x) by {
                    let k = choose|k: int| 0 <= k < v@.len() && nodes@[v@[k] as int]@ == x;
                }
            }
            i = i + 1;
        }
        deps_idx
    }

    /// Repeatedly emits every node whose dependencies have all been emitted,
    /// until a full pass emits nothing.
    fn emit_ready(deps_idx: &Vec<Vec<usize>>, n: usize) -> (r: (Vec<bool>, Vec<usize>, Vec<usize>))
        requires
            deps_idx@.len() == n,
            forall|a: int, k: int| 0 <= a < n && 0 <= k < deps_idx@[a]@.len() ==> #[trigger] deps_idx@[a]@[k] < n,
        ensures
            r.0@.len() == n,
            r.1@.len() == n,
            forall|a: int| 0 <= a < n && #[trigger] r.0@[a] ==> r.1@[a] < r.2@.len() && r.2@[r.1@[a] as int] == a,
            forall|k: int| 0 <= k < r.2@.len() ==> #[trigger] r.2@[k] < n && r.0@[r.2@[k] as int] && r.1@[r.2@[k] as int] == k,
            forall|a: int, k: int| #![trigger deps_idx@[a]@[k]] 0 <= a < n && r.0@[a] && 0 <= k < deps_idx@[a]@.len() ==> r.0@[deps_idx@[a]@[k] as int] && r.1@[deps_idx@[a]@[k] as int] < r.1@[a],
            forall|a: int| 0 <= a < n && !r.0@[a] ==> #[trigger] blocked(deps_idx@[a]@, r.0@),
    {
        let mut emitted: Vec<bool> = vec![false; n];
        let mut pos: Vec<usize> = vec![0; n];
        let mut order: Vec<usize> = Vec::new();
        loop
            invariant
                deps_idx@.len() == n,
                emitted@.len() == n,
                pos@.len() == n,
                forall|a: int, k: int| 0 <= a < n && 0 <= k < deps_idx@[a]@.len() ==> #[trigger] deps_idx@[a]@[k] < n,
                forall|a: int| 0 <= a < n && #[trigger] emitted@[a] ==> pos@[a] < order@.len() && order@[pos@[a] as int] == a,
                forall|k: int| 0 <= k < order@.len() ==> #[trigger] order@[k] < n && emitted@[order@[k] as int] && pos@[order@[k] as int] == k,
                forall|a: int, k: int| #![trigger deps_idx@[a]@[k]] 0 <= a < n && emitted@[a] && 0 <= k < deps_idx@[a]@.len() ==> emitted@[deps_idx@[a]@[k] as int] && pos@[deps_idx@[a]@[k] as int] < pos@[a],
            ensures
                emitted@.len() == n,
                pos@.len() == n,
                forall|a: int| 0 <= a < n && #[trigger] emitted@[a] ==> pos@[a] < order@.len() && order@[pos@[a] as int] == a,
                forall|k: int| 0 <= k < order@.len() ==> #[trigger] order@[k] < n && emitted@[order@[k] as int] && pos@[order@[k] as int] == k,
                forall|a: int, k: int| #![trigger deps_idx@[a]@[k]] 0 <= a < n && emitted@[a] && 0 <= k < deps_idx@[a]@.len() ==> emitted@[deps_idx@[a]@[k] as int] && pos@[deps_idx@[a]@[k] as int] < pos@[a],
                forall|a: int| 0 <= a < n && !emitted@[a] ==> #[trigger] blocked(deps_idx@[a]@, emitted@),
            decreases count_false(emitted@),
        {
            let ghost start = emitted@;
            let mut progress = false;
            let mut m: usize = 0;
            while m < n
                invariant
                        deps_idx@.len() == n,
                    emitted@.len() == n,
                    pos@.len() == n,
                    m <= n,
                    forall|a: int, k: int| 0 <= a < n && 0 <= k < deps_idx@[a]@.len() ==> #[trigger] deps_idx@[a]@[k] < n,
                    forall|a: int| 0 <= a < n && #[trigger] emitted@[a] ==> pos@[a] < order@.len() && order@[pos@[a] as int] == a,
                    forall|k: int| 0 <= k < order@.len() ==> #[trigger] order@[k] < n && emitted@[order@[k] as int] && pos@[order@[k] as int] == k,
                    forall|a: int, k: int| #![trigger deps_idx@[a]@[k]] 0 <= a < n && emitted@[a] && 0 <= k < deps_idx@[a]@.len() ==> emitted@[deps_idx@[a]@[k] as int] && pos@[deps_idx@[a]@[k] as int] < pos@[a],
                    !progress ==> emitted@ == start,
                    progress ==> count_false(emitted@) < count_false(start),
                    !progress ==> forall|a: int| 0 <= a < m && !emitted@[a] ==> #[trigger] blocked(deps_idx@[a]@, emitted@),
                decreases n - m,
            {
                if !emitted[m] {
                    let mut ready = true;
                    let mut k: usize = 0;
                    while k < deps_idx[m].len()
                        invariant_except_break
                            ready,
                        invariant
                            m < n,
                            deps_idx@.len() == n,
                            emitted@.len() == n,
                            k <= deps_idx@[m as int]@.len(),
                            forall|q: int| 0 <= q < k ==> emitted@[#[trigger] deps_idx@[m as int]@[q] as int],
                            forall|a: int, q: int| 0 <= a < n && 0 <= q < deps_idx@[a]@.len() ==> #[trigger] deps_idx@[a]@[q] < n,
                        ensures
                            ready ==> forall|q: int| 0 <= q < deps_idx@[m as int]@.len() ==> emitted@[#[trigger] deps_idx@[m as int]@[q] as int],
                            !ready ==> exists|q: int| 0 <= q < deps_idx@[m as int]@.len() && !emitted@[deps_idx@[m as int]@[q] as int],
                        decreases deps_idx@[m as int]@.len() - k,
                    {
                        if !emitted[deps_idx[m][k]] {
                            ready = false;
                            assert(0 <= k < deps_idx@[m as int]@.len() && !emitted@[deps_idx@[m as int]@[k as int] as int]);
                            break;
                        }
                        k = k + 1;
                    }
                    if ready {
                        let ghost before = emitted@;
                        let ghost pos_before = pos@;
                        let ghost order_before = order@;
                        let idx = order.len();
                        emitted.set(m, true);
                        pos.set(m, idx);
                        order.push(m);
                        proof {
                            lemma_count_false_set(before, m as int);
                            if progress {
                            } else {
                                assert(before == start);
                            }
                            assert forall|a: int, q: int| #![trigger deps_idx@[a]@[q]] 0 <= a < n && emitted@[a] && 0 <= q < deps_idx@[a]@.len()
                                implies emitted@[deps_idx@[a]@[q] as int] && pos@[deps_idx@[a]@[q] as int] < pos@[a] by {
                                let d = deps_idx@[a]@[q] as int;
                                if a == m {
                                    assert(emitted@[d]);
                                    assert(before[d]);
                                    assert(pos_before[d] < order_before.len());
                                } else {
                                    assert(before[a]);
                                }
                            }
                        }
                        progress = true;
                    }
                }
                m = m + 1;
            }
            if !progress {
                break;
            }
        }
        (emitted, pos, order)
    }

    /// Returns an ordering of all nodes in which every task comes after all of
    /// its dependencies; fails when the dependencies form a cycle, naming
    /// every node that could not be ordered: the members of the largest set
    /// of nodes each depending on a member of it (the cycles and all that
    /// depend on them).
    pub fn topological_order(&self) -> (r: Result<Vec<String>, DependencyError>)
        ensures
            r matches Ok(o) ==> is_topological_order(self.view(), string_views(o@)),
            r is Err ==> forall|o: Seq<Seq<char>>| !is_topological_order(self.view(), o),
            r matches Err(DependencyError::CycleDetected(m)) ==> exists|stuck: Seq<Seq<char>>|
                #![trigger join_with(stuck, ", "@)]
                stuck.len() > 0 && stuck.no_duplicates() && m@ == join_with(stuck, ", "@) && unorderable(self.view(), stuck.to_set())
                    && forall|u: Set<Seq<char>>| #[trigger] unorderable(self.view(), u) ==> u.subset_of(stuck.to_set()),
    {
        let nodes = self.collect_nodes();
        let n = nodes.len();
        let ghost nv = string_views(nodes@);
        let deps_idx = self.build_dep_indices(&nodes);
        let (emitted, pos, order) = Self::emit_ready(&deps_idx, n);
        let mut all = true;
        let mut a: usize = 0;
        while a < n
            invariant_except_break
                all,
            invariant
                a <= n,
                emitted@.len() == n,
                forall|b: int| 0 <= b < a ==> emitted@[b],
            ensures
                all ==> forall|b: int| 0 <= b < n ==> emitted@[b],
                !all ==> exists|b: int| 0 <= b < n && !emitted@[b],
            decreases n - a,
        {
            if !emitted[a] {
                all = false;
                assert(!emitted@[a as int]);
                break;
            }
            a = a + 1;
        }
        if all {
            let mut out: Vec<String> = Vec::new();
            let mut k: usize = 0;
            while k < order.len()
                invariant
                    k <= order@.len(),
                    out@.len() == k,
                    forall|q: int| 0 <= q < order@.len() ==> #[trigger] order@[q] < n,
                    n == nodes@.len(),
                    forall|q: int| 0 <= q < k ==> #[trigger] out@[q]@ == nodes@[order@[q] as int]@,
                decreases order.len() - k,
            {
                out.push(nodes[order[k]].clone());
                k = k + 1;
            }
            proof {
                self.lemma_ok_order(nodes@, deps_idx@, emitted@, pos@, order@, out@);
            }
            Ok(out)
        } else {
            let mut stuck: Vec<String> = Vec::new();
            let ghost mut idxs: Seq<int> = Seq::empty();
            let mut b: usize = 0;
            while b < n
                invariant
                    b <= n,
                    n == nodes@.len(),
                    emitted@.len() == n,
                    idxs.len() == stuck@.len(),
                    forall|q: int| 0 <= q < idxs.len() ==> 0 <= #[trigger] idxs[q] < b && !emitted@[idxs[q]] && stuck@[q]@ == nodes@[idxs[q]]@,
                    forall|q: int, w: int| 0 <= q < w < idxs.len() ==> idxs[q] < idxs[w],
                    forall|c: int| 0 <= c < b && !#[trigger] emitted@[c] ==> idxs.contains(c),
                decreases n - b,
            {
                if !emitted[b] {
                    stuck.push(nodes[b].clone());
                    proof {
                        let old_idxs = idxs;
                        idxs = idxs.push(b as int);
                        assert(idxs[idxs.len() - 1] == b);
                        assert forall|c: int| 0 <= c < b && !#[trigger] emitted@[c] implies idxs.contains(c) by {
                            let q = choose|q: int| 0 <= q < old_idxs.len() && old_idxs[q] == c;
                            assert(idxs[q] == c);
                        }
                    }
                }
                b = b + 1;
            }
            let msg = join_strings(&stuck, ", ");
            proof {
                self.lemma_err_stuck(nodes@, deps_idx@, emitted@, idxs, stuck@, pos@);
            }
            Err(DependencyError::CycleDetected(msg))
        }
    }

    proof fn lemma_ok_order(self, nodes: Seq<String>, deps_idx: Seq<Vec<usize>>, emitted: Seq<bool>, pos: Seq<usize>, order: Seq<usize>, out: Seq<String>)
        requires
            forall|x: Seq<char>| string_views(nodes).contains(x) <==> graph_nodes(self.view()).contains(x),
            string_views(nodes).no_duplicates(),
            deps_idx.len() == nodes.len(),
            emitted.len() == nodes.len(),
            pos.len() == nodes.len(),
            forall|a: int, k: int| 0 <= a < nodes.len() && 0 <= k < deps_idx[a]@.len() ==> #[trigger] deps_idx[a]@[k] < nodes.len() && self.depends(nodes[a]@, nodes[deps_idx[a]@[k] as int]@),
            forall|a: int, x: Seq<char>| 0 <= a < nodes.len() && #[trigger] self.depends(nodes[a]@, x) ==> covers(nodes, deps_idx[a]@, x),
            forall|b: int| 0 <= b < nodes.len() ==> emitted[b],
            forall|a: int| 0 <= a < nodes.len() && #[trigger] emitted[a] ==> pos[a] < order.len() && order[pos[a] as int] == a,
            forall|k: int| 0 <= k < order.len() ==> #[trigger] order[k] < nodes.len() && emitted[order[k] as int] && pos[order[k] as int] == k,
            forall|a: int, k: int| #![trigger deps_idx[a]@[k]] 0 <= a < nodes.len() && emitted[a] && 0 <= k < deps_idx[a]@.len() ==> emitted[deps_idx[a]@[k] as int] && pos[deps_idx[a]@[k] as int] < pos[a],
            out.len() == order.len(),
            forall|q: int| 0 <= q < order.len() ==> #[trigger] out[q]@ == nodes[order[q] as int]@,
        ensures
            is_topological_order(self.view(), string_views(out)),
    {
        let nv = string_views(nodes);
        let o = string_views(out);
        let g = self.view();
        assert(o.no_duplicates()) by {
            assert forall|x: int, y: int| 0 <= x < o.len() && 0 <= y < o.len() && x != y implies o[x] != o[y] by {
                assert(pos[order[x] as int] == x);
                assert(pos[order[y] as int] == y);
                assert(order[x] != order[y]);
                assert(nv[order[x] as int] != nv[order[y] as int]);
            }
        }
        assert forall|x: Seq<char>| o.to_set().contains(x) <==> graph_nodes(g).contains(x) by {
            if o.to_set().contains(x) {
                let q = choose|q: int| 0 <= q < o.len() && o[q] == x;
                assert(nv[order[q] as int] == x);
                assert(nv.contains(x));
            }
            if graph_nodes(g).contains(x) {
                assert(nv.contains(x));
                let b = choose|b: int| 0 <= b < nv.len() && nv[b] == x;
                assert(emitted[b]);
                let q = pos[b] as int;
                assert(order[q] == b);
                assert(o[q] == x);
                assert(o.contains(x));
            }
        }
        assert(o.to_set() =~= graph_nodes(g));
        assert forall|x: int, y: int|
            0 <= x < o.len() && 0 <= y < o.len() && g.contains_key(o[x]) && g[o[x]].contains(o[y]) implies y < x by {
            let ax = order[x] as int;
            let ay = order[y] as int;
            assert(self.depends(nodes[ax]@, nodes[ay]@));
            assert(covers(nodes, deps_idx[ax]@, nodes[ay]@));
            let q = choose|q: int| 0 <= q < deps_idx[ax]@.len() && nodes[deps_idx[ax]@[q] as int]@ == nodes[ay]@;
            assert(nv[deps_idx[ax]@[q] as int] == nv[ay]);
            assert(deps_idx[ax]@[q] as int == ay);
            assert(emitted[ax]);
        }
    }

    proof fn lemma_err_stuck(self, nodes: Seq<String>, deps_idx: Seq<Vec<usize>>, emitted: Seq<bool>, idxs: Seq<int>, stuck: Seq<String>, pos: Seq<usize>)
        requires
            forall|x: Seq<char>| string_views(nodes).contains(x) <==> graph_nodes(self.view()).contains(x),
            string_views(nodes).no_duplicates(),
            deps_idx.len() == nodes.len(),
            emitted.len() == nodes.len(),
            forall|a: int, k: int| 0 <= a < nodes.len() && 0 <= k < deps_idx[a]@.len() ==> #[trigger] deps_idx[a]@[k] < nodes.len() && self.depends(nodes[a]@, nodes[deps_idx[a]@[k] as int]@),
            forall|a: int, x: Seq<char>| 0 <= a < nodes.len() && #[trigger] self.depends(nodes[a]@, x) ==> covers(nodes, deps_idx[a]@, x),
            exists|b: int| 0 <= b < nodes.len() && !emitted[b],
            forall|a: int| 0 <= a < nodes.len() && !emitted[a] ==> #[trigger] blocked(deps_idx[a]@, emitted),
            idxs.len() == stuck.len(),
            forall|q: int| 0 <= q < idxs.len() ==> 0 <= #[trigger] idxs[q] < nodes.len() && !emitted[idxs[q]] && stuck[q]@ == nodes[idxs[q]]@,
            forall|q: int, w: int| 0 <= q < w < idxs.len() ==> idxs[q] < idxs[w],
            forall|c: int| 0 <= c < nodes.len() && !#[trigger] emitted[c] ==> idxs.contains(c),
            pos.len() == nodes.len(),
            forall|a: int, k: int| #![trigger deps_idx[a]@[k]] 0 <= a < nodes.len() && emitted[a] && 0 <= k < deps_idx[a]@.len() ==> emitted[deps_idx[a]@[k] as int] && pos[deps_idx[a]@[k] as int] < pos[a],
        ensures
            string_views(stuck).len() > 0,
            string_views(stuck).no_duplicates(),
            unorderable(self.view(), string_views(stuck).to_set()),
            forall|u: Set<Seq<char>>| #[trigger] unorderable(self.view(), u) ==> u.subset_of(string_views(stuck).to_set()),
            forall|o: Seq<Seq<char>>| !is_topological_order(self.view(), o),
    {
        let nv = string_views(nodes);
        let n = nodes.len();
        let g = self.view();
        let sv = string_views(stuck);
        let st = sv.to_set();
        assert(sv.no_duplicates()) by {
            assert forall|x: int, y: int| 0 <= x < sv.len() && 0 <= y < sv.len() && x != y implies sv[x] != sv[y] by {
                if x < y {
                    assert(idxs[x] < idxs[y]);
                } else {
                    assert(idxs[y] < idxs[x]);
                }
                assert(nv[idxs[x]] != nv[idxs[y]]);
            }
        }
        let w = choose|w: int| 0 <= w < n && !emitted[w];
        assert(idxs.contains(w));
        assert(sv.len() > 0);
        assert forall|x: Seq<char>| #[trigger] st.contains(x) implies graph_nodes(g).contains(x) && depends_within(g, st, x) by {
            let q = choose|q: int| 0 <= q < sv.len() && sv[q] == x;
            let c = idxs[q];
            assert(nv[c] == x);
            assert(nv.contains(x));
            assert(blocked(deps_idx[c]@, emitted));
            let k = choose|k: int| 0 <= k < deps_idx[c]@.len() && !emitted[deps_idx[c]@[k] as int];
            let d = deps_idx[c]@[k] as int;
            assert(self.depends(nodes[c]@, nodes[d]@));
            assert(idxs.contains(d));
            let q2 = choose|q2: int| 0 <= q2 < idxs.len() && idxs[q2] == d;
            assert(sv[q2] == nodes[d]@);
            assert(st.contains(nodes[d]@));
            assert(g.contains_key(x) && g[x].contains(nodes[d]@));
            reveal(depends_within);
        }
        assert forall|o: Seq<Seq<char>>| !is_topological_order(g, o) by {
            assert(st.contains(sv[0]));
            lemma_stuck_set_no_order(g, st, o);
        }
        assert forall|u: Set<Seq<char>>| #[trigger] unorderable(g, u) implies u.subset_of(st) by {
            assert forall|x: Seq<char>| u.contains(x) implies st.contains(x) by {
                assert(graph_nodes(g).contains(x));
                assert(nv.contains(x));
                let b = choose|b: int| 0 <= b < nv.len() && nv[b] == x;
                if emitted[b] {
                    self.lemma_emitted_outside(nodes, deps_idx, emitted, pos, u, b);
                }
                assert(idxs.contains(b));
                let q = choose|q: int| 0 <= q < idxs.len() && idxs[q] == b;
                assert(sv[q] == x);
            }
        }
    }

    /// No emitted node belongs to an unorderable set: its dependencies were
    /// all emitted earlier.
    proof fn lemma_emitted_outside(self, nodes: Seq<String>, deps_idx: Seq<Vec<usize>>, emitted: Seq<bool>, pos: Seq<usize>, u: Set<Seq<char>>, a: int)
        requires
            deps_idx.len() == nodes.len(),
            emitted.len() == nodes.len(),
            pos.len() == nodes.len(),
            forall|a: int, k: int| 0 <= a < nodes.len() && 0 <= k < deps_idx[a]@.len() ==> #[trigger] deps_idx[a]@[k] < nodes.len() && self.depends(nodes[a]@, nodes[deps_idx[a]@[k] as int]@),
            forall|a: int, x: Seq<char>| 0 <= a < nodes.len() && #[trigger] self.depends(nodes[a]@, x) ==> covers(nodes, deps_idx[a]@, x),
            forall|a: int, k: int| #![trigger deps_idx[a]@[k]] 0 <= a < nodes.len() && emitted[a] && 0 <= k < deps_idx[a]@.len() ==> emitted[deps_idx[a]@[k] as int] && pos[deps_idx[a]@[k] as int] < pos[a],
            unorderable(self.view(), u),
            0 <= a < nodes.len(),
            emitted[a],
        ensures
            !u.contains(nodes[a]@),
        decreases pos[a],
    {
        let g = self.view();
        let x = nodes[a]@;
        if u.contains(x) {
            assert(depends_within(g, u, x));
            reveal(depends_within);
            let y = choose|y: Seq<char>| u.contains(y) && g[x].contains(y);
            assert(self.depends(x, y));
            assert(covers(nodes, deps_idx[a]@, y));
            let k = choose|k: int| 0 <= k < deps_idx[a]@.len() && nodes[deps_idx[a]@[k] as int]@ == y;
            let d = deps_idx[a]@[k] as int;
            assert(emitted[d] && pos[d] < pos[a]);
            self.lemma_emitted_outside(nodes, deps_idx, emitted, pos, u, d);
        }
    }
}

} // verus!
