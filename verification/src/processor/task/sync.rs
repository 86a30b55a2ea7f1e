//! Two-way task sync with Feishu: what each side's changes call for, the
//! conflicts between them, and a log of every decision.
use vstd::prelude::*;
use crate::clock::lowercase;
use crate::processor::task::lifecycle::{status_name, map_task_status};
use crate::processor::task::model::{opt_view, Task, TaskStatus};
use crate::text::{lex_lt, str_eq, str_lt};

verus! {

/// A task as Feishu holds it.
#[derive(Debug, Clone)]
pub struct FeishuTask {
    pub id: String,
    pub title: String,
    pub status: String,
    pub updated_at: String,
}

/// Which way a sync goes.
#[derive(PartialEq, Eq, Structural, Clone, Copy, Debug)]
pub enum SyncDirection {
    FeishuToObsidian,
    ObsidianToFeishu,
}

/// What a sync did with one task.
#[derive(PartialEq, Eq, Structural, Clone, Copy, Debug)]
pub enum SyncAction {
    Created,
    Updated,
    ConflictResolved,
    Skipped,
}

/// The kind of conflict between the two sides.
#[derive(PartialEq, Eq, Structural, Clone, Copy, Debug)]
pub enum ConflictType {
    BothModified,
    DeletedOnOneSide,
    StatusMismatch,
}

/// How a conflict is to be resolved.
#[derive(PartialEq, Eq, Structural, Clone, Copy, Debug)]
pub enum Resolution {
    /// Keep the local version.
    KeepLocal,
    /// Keep the remote version.
    KeepRemote,
    /// Keep the newer version.
    TimestampPriority,
}

/// One entry of the sync log.
#[derive(Debug, Clone)]
pub struct SyncLogEntry {
    pub task_id: String,
    pub direction: SyncDirection,
    pub action: SyncAction,
    pub timestamp: String,
    pub conflict: Option<ConflictType>,
}

/// The outcome of syncing one task.
#[derive(Debug, Clone)]
pub struct SyncResult {
    pub task_id: String,
    pub direction: SyncDirection,
    pub action: SyncAction,
    pub conflict: Option<ConflictType>,
}

/// What a sync decides for one task: which task, what to do, which conflict.
pub struct Outcome {
    pub task_id: Seq<char>,
    pub action: SyncAction,
    pub conflict: Option<ConflictType>,
}

/// The local status name a Feishu status stands for (compared lower-cased);
/// an unknown status stands for itself.
pub open spec fn feishu_status_name(s: Seq<char>) -> Seq<char> {
    let l = lowercase(s);
    if l == "todo"@ || l == "open"@ || l == "pending"@ {
        "Open"@
    } else if l == "in_progress"@ || l == "in progress"@ || l == "doing"@ {
        "InProgress"@
    } else if l == "done"@ || l == "completed"@ || l == "closed"@ {
        "Done"@
    } else if l == "archived"@ {
        "Archived"@
    } else {
        s
    }
}

/// The conflict between a local task and its Feishu counterpart: both sides
/// modified when their timestamps differ and the title or the status does;
/// else a status mismatch when the statuses differ; else none.
pub open spec fn conflict_of(local: Task, remote: FeishuTask) -> Option<ConflictType> {
    let title_changed = local.title@ != remote.title@;
    let status_mismatch = status_name(local.status) != feishu_status_name(remote.status@);
    if local.updated_at@ != remote.updated_at@ && (title_changed || status_mismatch) {
        Some(ConflictType::BothModified)
    } else if status_mismatch {
        Some(ConflictType::StatusMismatch)
    } else {
        None
    }
}

/// The first local task, from index `k` on, linked to Feishu task `id`.
pub open spec fn linked_local_from(locals: Seq<Task>, id: Seq<char>, k: int) -> Option<int>
    decreases locals.len() - k,
{
    if k < 0 || k >= locals.len() {
        None
    } else if opt_view(locals[k].feishu_task_id) == Some(id) {
        Some(k)
    } else {
        linked_local_from(locals, id, k + 1)
    }
}

/// The first Feishu task, from index `k` on, with id `id`.
pub open spec fn remote_from(remotes: Seq<FeishuTask>, id: Seq<char>, k: int) -> Option<int>
    decreases remotes.len() - k,
{
    if k < 0 || k >= remotes.len() {
        None
    } else if remotes[k].id@ == id {
        Some(k)
    } else {
        remote_from(remotes, id, k + 1)
    }
}

/// What pulling Feishu task `ft` does: create it when no local task is
/// linked to it; else record the conflict if there is one; else update when
/// the title differs or the local copy is older; else skip.
pub open spec fn pull_outcome(ft: FeishuTask, locals: Seq<Task>) -> Outcome {
    match linked_local_from(locals, ft.id@, 0) {
        None => Outcome { task_id: ft.id@, action: SyncAction::Created, conflict: None },
        Some(i) => {
            let l = locals[i];
            match conflict_of(l, ft) {
                Some(c) => Outcome { task_id: l.id@, action: SyncAction::ConflictResolved, conflict: Some(c) },
                None => Outcome {
                    task_id: l.id@,
                    action: if l.title@ != ft.title@ || lex_lt(l.updated_at@, ft.updated_at@) {
                        SyncAction::Updated
                    } else {
                        SyncAction::Skipped
                    },
                    conflict: None,
                },
            }
        },
    }
}

/// What pushing local task `t`, linked to Feishu task `fid`, does: a
/// deletion conflict when Feishu no longer has it; else record the conflict
/// if there is one; else update when the local copy is newer; else skip.
pub open spec fn push_outcome(t: Task, fid: Seq<char>, remotes: Seq<FeishuTask>) -> Outcome {
    match remote_from(remotes, fid, 0) {
        None => Outcome {
            task_id: t.id@,
            action: SyncAction::ConflictResolved,
            conflict: Some(ConflictType::DeletedOnOneSide),
        },
        Some(j) => {
            let rt = remotes[j];
            match conflict_of(t, rt) {
                Some(c) => Outcome { task_id: t.id@, action: SyncAction::ConflictResolved, conflict: Some(c) },
                None => Outcome {
                    task_id: t.id@,
                    action: if lex_lt(rt.updated_at@, t.updated_at@) {
                        SyncAction::Updated
                    } else {
                        SyncAction::Skipped
                    },
                    conflict: None,
                },
            }
        },
    }
}

/// The outcomes of pushing the local tasks linked to Feishu, in order;
/// unlinked tasks are passed over.
pub open spec fn push_outcomes(locals: Seq<Task>, remotes: Seq<FeishuTask>) -> Seq<Outcome>
    decreases locals.len(),
{
    if locals.len() == 0 {
        Seq::<Outcome>::empty()
    } else {
        let r = push_outcomes(locals.drop_last(), remotes);
        match locals.last().feishu_task_id {
            Some(fid) => r.push(push_outcome(locals.last(), fid@, remotes)),
            None => r,
        }
    }
}

/// What resolving the conflict between `local` and `remote` records: kept
/// local or remote is a resolved conflict; by timestamp, the local side wins
/// (an update) unless it is older.
pub open spec fn resolve_action(local: Task, remote: FeishuTask, resolution: Resolution) -> SyncAction {
    match resolution {
        Resolution::KeepLocal => SyncAction::ConflictResolved,
        Resolution::KeepRemote => SyncAction::ConflictResolved,
        Resolution::TimestampPriority => if !lex_lt(local.updated_at@, remote.updated_at@) {
            SyncAction::Updated
        } else {
            SyncAction::ConflictResolved
        },
    }
}

/// `r` reports outcome `o` in direction `d`.
pub open spec fn reports(r: SyncResult, o: Outcome, d: SyncDirection) -> bool {
    r.task_id@ == o.task_id && r.direction == d && r.action == o.action && r.conflict == o.conflict
}

/// Log entry `e` records outcome `o` in direction `d`.
pub open spec fn records(e: SyncLogEntry, o: Outcome, d: SyncDirection) -> bool {
    e.task_id@ == o.task_id && e.direction == d && e.action == o.action && e.conflict == o.conflict
}

/// `after` is `before` with one entry per outcome of `os` appended, in order,
/// and `r` reports the same outcomes.
pub open spec fn logged(before: Seq<SyncLogEntry>, after: Seq<SyncLogEntry>, r: Seq<SyncResult>, os: Seq<Outcome>, d: SyncDirection) -> bool {
    &&& r.len() == os.len()
    &&& after.len() == before.len() + os.len()
    &&& after.subrange(0, before.len() as int) == before
    &&& forall|i: int| 0 <= i < os.len() ==> reports(#[trigger] r[i], os[i], d) && records(after[before.len() + i], os[i], d)
}

/// The local status name of a Feishu status.
fn map_feishu_status(status: &str) -> (r: String)
    ensures
        r@ == feishu_status_name(status@),
{
    let l = crate::clock::to_lowercase(status);
    let ls = l.as_str();
    if str_eq(ls, "todo") || str_eq(ls, "open") || str_eq(ls, "pending") {
        String::from_str("Open")
    } else if str_eq(ls, "in_progress") || str_eq(ls, "in progress") || str_eq(ls, "doing") {
        String::from_str("InProgress")
    } else if str_eq(ls, "done") || str_eq(ls, "completed") || str_eq(ls, "closed") {
        String::from_str("Done")
    } else if str_eq(ls, "archived") {
        String::from_str("Archived")
    } else {
        String::from_str(status)
    }
}

/// The conflict between `local` and `remote` (see `conflict_of`).
fn detect_conflict_static(local: &Task, remote: &FeishuTask) -> (r: Option<ConflictType>)
    ensures
        r == conflict_of(*local, *remote),
{
    let remote_status = map_feishu_status(remote.status.as_str());
    let local_status = map_task_status(local.status);
    let title_changed = !str_eq(local.title.as_str(), remote.title.as_str());
    let status_mismatch = !str_eq(local_status.as_str(), remote_status.as_str());
    let both_modified = !str_eq(local.updated_at.as_str(), remote.updated_at.as_str())
        && (title_changed || status_mismatch);
    if both_modified {
        Some(ConflictType::BothModified)
    } else if status_mismatch {
        Some(ConflictType::StatusMismatch)
    } else {
        None
    }
}

fn find_linked(locals: &[Task], id: &str) -> (r: Option<usize>)
    ensures
        r matches Some(i) ==> linked_local_from(locals@, id@, 0) == Some(i as int) && i < locals@.len(),
        r is None ==> linked_local_from(locals@, id@, 0) is None,
{
    let mut k: usize = 0;
    while k < locals.len()
        invariant
            k <= locals@.len(),
            linked_local_from(locals@, id@, 0) == linked_local_from(locals@, id@, k as int),
        decreases locals.len() - k,
    {
        let hit = match &locals[k].feishu_task_id {
            Some(f) => str_eq(f.as_str(), id),
            None => false,
        };
        if hit {
            return Some(k);
        }
        k = k + 1;
    }
    None
}

fn find_remote(remotes: &[FeishuTask], id: &str) -> (r: Option<usize>)
    ensures
        r matches Some(j) ==> remote_from(remotes@, id@, 0) == Some(j as int) && j < remotes@.len(),
        r is None ==> remote_from(remotes@, id@, 0) is None,
{
    let mut k: usize = 0;
    while k < remotes.len()
        invariant
            k <= remotes@.len(),
            remote_from(remotes@, id@, 0) == remote_from(remotes@, id@, k as int),
        decreases remotes.len() - k,
    {
        if str_eq(remotes[k].id.as_str(), id) {
            return Some(k);
        }
        k = k + 1;
    }
    None
}

/// The task sync orchestrator: it decides what each side's changes call for
/// and logs every decision.
pub struct TaskSync {
    log: Vec<SyncLogEntry>,
}

impl TaskSync {
    /// The sync log, oldest first.
    pub closed spec fn entries(self) -> Seq<SyncLogEntry> {
        self.log@
    }

    pub fn new() -> (r: Self)
        ensures
            r.entries() == Seq::<SyncLogEntry>::empty(),
    {
        TaskSync { log: Vec::new() }
    }

    fn record(&mut self, task_id: &String, direction: SyncDirection, action: SyncAction, conflict: Option<ConflictType>, now: &String) -> (r: SyncResult)
        ensures
            final(self).entries() == old(self).entries().push(final(self).entries().last()),
            final(self).entries().last().task_id@ == task_id@,
            final(self).entries().last().direction == direction,
            final(self).entries().last().action == action,
            final(self).entries().last().conflict == conflict,
            r.task_id@ == task_id@ && r.direction == direction && r.action == action && r.conflict == conflict,
    {
        self.log.push(SyncLogEntry {
            task_id: task_id.clone(),
            direction,
            action,
            timestamp: now.clone(),
            conflict,
        });
        SyncResult { task_id: task_id.clone(), direction, action, conflict }
    }

    /// Pulls Feishu's tasks: one outcome per Feishu task, in order (see
    /// `pull_outcome`), each also appended to the log.
    pub fn sync_from_feishu(&mut self, feishu_tasks: &[FeishuTask], local_tasks: &[Task]) -> (r: Vec<SyncResult>)
        ensures
            logged(
                old(self).entries(),
                final(self).entries(),
                r@,
                feishu_tasks@.map_values(|ft: FeishuTask| pull_outcome(ft, local_tasks@)),
                SyncDirection::FeishuToObsidian,
            ),
    {
        let now = crate::clock::now_rfc3339();
        let ghost before = self.entries();
        let ghost os = feishu_tasks@.map_values(|ft: FeishuTask| pull_outcome(ft, local_tasks@));
        let mut results: Vec<SyncResult> = Vec::new();
        let mut i: usize = 0;
        assert(before.subrange(0, before.len() as int) =~= before);
        while i < feishu_tasks.len()
            invariant
                i <= feishu_tasks@.len(),
                os == feishu_tasks@.map_values(|ft: FeishuTask| pull_outcome(ft, local_tasks@)),
                logged(before, self.entries(), results@, os.subrange(0, i as int), SyncDirection::FeishuToObsidian),
            decreases feishu_tasks.len() - i,
        {
            let ft = &feishu_tasks[i];
            let ghost o = pull_outcome(*ft, local_tasks@);
            let ghost mid = self.entries();
            let res = match find_linked(local_tasks, ft.id.as_str()) {
                None => self.record(&ft.id, SyncDirection::FeishuToObsidian, SyncAction::Created, None, &now),
                Some(k) => {
                    let lt = &local_tasks[k];
                    match detect_conflict_static(lt, ft) {
                        Some(c) => self.record(&lt.id, SyncDirection::FeishuToObsidian, SyncAction::ConflictResolved, Some(c), &now),
                        None => {
                            let needs_update = !str_eq(lt.title.as_str(), ft.title.as_str())
                                || str_lt(lt.updated_at.as_str(), ft.updated_at.as_str());
                            if needs_update {
                                self.record(&lt.id, SyncDirection::FeishuToObsidian, SyncAction::Updated, None, &now)
                            } else {
                                self.record(&lt.id, SyncDirection::FeishuToObsidian, SyncAction::Skipped, None, &now)
                            }
                        },
                    }
                },
            };
            results.push(res);
            proof {
                let sub = os.subrange(0, i + 1);
                assert(os[i as int] == o);
                assert(reports(res, o, SyncDirection::FeishuToObsidian));
                assert(self.entries().subrange(0, before.len() as int) =~= before) by {
                    assert(mid.subrange(0, before.len() as int) =~= before);
                }
                assert forall|j: int| 0 <= j < sub.len() implies reports(#[trigger] results@[j], sub[j], SyncDirection::FeishuToObsidian)
                    && records(self.entries()[before.len() + j], sub[j], SyncDirection::FeishuToObsidian) by {
                    if j < i {
                        assert(os.subrange(0, i as int)[j] == sub[j]);
                        assert(self.entries()[before.len() + j] == mid[before.len() + j]);
                    } else {
                        assert(sub[j] == o);
                        assert(results@[j] == res);
                        assert(self.entries()[before.len() + j] == self.entries().last());
                    }
                }
            }
            i = i + 1;
        }
        assert(os.subrange(0, feishu_tasks@.len() as int) =~= os);
        results
    }

    /// Pushes the local tasks linked to Feishu: one outcome per linked task,
    /// in order (see `push_outcome`), each also appended to the log.
    pub fn sync_to_feishu(&mut self, local_tasks: &[Task], feishu_tasks: &[FeishuTask]) -> (r: Vec<SyncResult>)
        ensures
            logged(
                old(self).entries(),
                final(self).entries(),
                r@,
                push_outcomes(local_tasks@, feishu_tasks@),
                SyncDirection::ObsidianToFeishu,
            ),
    {
        let now = crate::clock::now_rfc3339();
        let ghost before = self.entries();
        let mut results: Vec<SyncResult> = Vec::new();
        let mut i: usize = 0;
        assert(before.subrange(0, before.len() as int) =~= before);
        assert(local_tasks@.subrange(0, 0) =~= Seq::<Task>::empty());
        while i < local_tasks.len()
            invariant
                i <= local_tasks@.len(),
                logged(before, self.entries(), results@, push_outcomes(local_tasks@.subrange(0, i as int), feishu_tasks@), SyncDirection::ObsidianToFeishu),
            decreases local_tasks.len() - i,
        {
            let task = &local_tasks[i];
            let ghost prev = push_outcomes(local_tasks@.subrange(0, i as int), feishu_tasks@);
            assert(local_tasks@.subrange(0, i + 1).drop_last() =~= local_tasks@.subrange(0, i as int));
            assert(local_tasks@.subrange(0, i + 1).last() == *task);
            match &task.feishu_task_id {
                None => {},
                Some(fid) => {
                    let ghost o = push_outcome(*task, fid@, feishu_tasks@);
                    let ghost mid = self.entries();
                    let ghost rs = results@;
                    let res = match find_remote(feishu_tasks, fid.as_str()) {
                        None => self.record(&task.id, SyncDirection::ObsidianToFeishu, SyncAction::ConflictResolved, Some(ConflictType::DeletedOnOneSide), &now),
                        Some(j) => {
                            let rt = &feishu_tasks[j];
                            match detect_conflict_static(task, rt) {
                                Some(c) => self.record(&task.id, SyncDirection::ObsidianToFeishu, SyncAction::ConflictResolved, Some(c), &now),
                                None => {
                                    if str_lt(rt.updated_at.as_str(), task.updated_at.as_str()) {
                                        self.record(&task.id, SyncDirection::ObsidianToFeishu, SyncAction::Updated, None, &now)
                                    } else {
                                        self.record(&task.id, SyncDirection::ObsidianToFeishu, SyncAction::Skipped, None, &now)
                                    }
                                },
                            }
                        },
                    };
                    results.push(res);
                    proof {
                        let next = prev.push(o);
                        assert(reports(res, o, SyncDirection::ObsidianToFeishu));
                        assert(self.entries().subrange(0, before.len() as int) =~= before) by {
                            assert(mid.subrange(0, before.len() as int) =~= before);
                        }
                        assert forall|j: int| 0 <= j < next.len() implies reports(#[trigger] results@[j], next[j], SyncDirection::ObsidianToFeishu)
                            && records(self.entries()[before.len() + j], next[j], SyncDirection::ObsidianToFeishu) by {
                            if j < prev.len() {
                                assert(results@[j] == rs[j]);
                                assert(self.entries()[before.len() + j] == mid[before.len() + j]);
                            } else {
                                assert(next[j] == o);
                                assert(results@[j] == res);
                                assert(self.entries()[before.len() + j] == self.entries().last());
                            }
                        }
                    }
                },
            }
            i = i + 1;
        }
        assert(local_tasks@.subrange(0, local_tasks@.len() as int) =~= local_tasks@);
        results
    }

    /// The conflict between `local` and `remote` (see `conflict_of`).
    pub fn detect_conflicts(&self, local: &Task, remote: &FeishuTask) -> (r: Option<ConflictType>)
        ensures
            r == conflict_of(*local, *remote),
    {
        detect_conflict_static(local, remote)
    }

    /// Resolves the conflict between `local` and `remote` as `resolution`
    /// says (see `resolve_action`), and logs it.
    pub fn resolve_conflict(&mut self, local: &Task, remote: &FeishuTask, resolution: Resolution) -> (r: SyncResult)
        ensures
            logged(
                old(self).entries(),
                final(self).entries(),
                seq![r],
                seq![Outcome { task_id: local.id@, action: resolve_action(*local, *remote, resolution), conflict: conflict_of(*local, *remote) }],
                SyncDirection::FeishuToObsidian,
            ),
    {
        let now = crate::clock::now_rfc3339();
        let conflict = detect_conflict_static(local, remote);
        let action = match resolution {
            Resolution::KeepLocal => SyncAction::ConflictResolved,
            Resolution::KeepRemote => SyncAction::ConflictResolved,
            Resolution::TimestampPriority => {
                if !str_lt(local.updated_at.as_str(), remote.updated_at.as_str()) {
                    SyncAction::Updated
                } else {
                    SyncAction::ConflictResolved
                }
            },
        };
        let ghost before = self.entries();
        let r = self.record(&local.id, SyncDirection::FeishuToObsidian, action, conflict, &now);
        assert(self.entries().subrange(0, before.len() as int) =~= before);
        r
    }

    /// The sync log, oldest first.
    pub fn log(&self) -> (r: &[SyncLogEntry])
        ensures
            r@ == self.entries(),
    {
        self.log.as_slice()
    }
}

impl Default for TaskSync {
    fn default() -> (r: Self)
        ensures
            r.entries() == Seq::<SyncLogEntry>::empty(),
    {
        TaskSync::new()
    }
}

} // verus!
