//! The per-module tick decision: given a module's refresh state, the
//! observed condition of its in-flight probe and the current time, choose
//! the next state and what to do with the probe task.
//!
//! The states are Idle (`is_processing == false`) and Probing.  A probe is
//! launched when the module is Idle and its TTL has elapsed; a completed
//! probe merges its fields; a failed probe is discarded with the data kept;
//! a probe that outlives its timeout is cancelled and the module is reset
//! so it relaunches on the very next tick.

use vstd::prelude::*;

use crate::fields::FieldMap;
use crate::registry::{get_handler, render_module, render_spec, spec_kind_of};
use crate::types::{display_of, timeout_of, Meta, ModuleConfig, Out, OutV};

verus! {

/// What a non-blocking poll of a module's in-flight probe observed, as
/// handed to the scheduler at the start of a tick.
pub enum ProbePoll {
    /// The probe finished and returned these fields.
    Completed(FieldMap),
    /// The probe finished with an error; the error itself is discarded.
    Failed,
    /// No completion was observed: the probe still runs, or none exists.
    Pending,
}

impl ProbePoll {
    pub open spec fn wf(self) -> bool {
        match self {
            ProbePoll::Completed(fields) => fields.wf(),
            _ => true,
        }
    }
}

/// What the caller must do with the module's probe task this tick.
#[derive(Clone, Copy, Debug, PartialEq, Eq, Structural)]
pub enum TaskCmd {
    /// Cancel whatever stale handle may exist, then spawn a fresh probe.
    Launch,
    /// Keep the handle, if any, for the next tick.
    Retain,
    /// Cancel the in-flight probe and drop its handle.
    Cancel,
    /// The probe completed and its handle is consumed; drop the slot.
    Discard,
}

/// Milliseconds elapsed since `start`, clamped at zero when the clock
/// reads earlier than `start`.
pub open spec fn elapsed_since(now: u64, start: u64) -> int {
    if now >= start {
        now - start
    } else {
        0
    }
}

/// The full per-module transition relation of one tick.
pub open spec fn step_rel(
    pre: Meta,
    post: Meta,
    poll: ProbePoll,
    now: u64,
    ttl: u64,
    timeout: u64,
    cmd: TaskCmd,
) -> bool {
    if !pre.is_processing && now > pre.start_time + ttl {
        // Idle and the TTL has elapsed: launch a new probe.
        &&& post.is_processing
        &&& post.start_time == now
        &&& post.data == pre.data
        &&& cmd is Launch
    } else if pre.is_processing {
        match poll {
            ProbePoll::Completed(fields) => {
                // Merge the returned fields and return to Idle; the launch
                // time is kept, so the TTL still gates the next probe.
                &&& !post.is_processing
                &&& post.start_time == pre.start_time
                &&& post.data@ == pre.data@.union_prefer_right(fields@)
                &&& post.data.wf()
                &&& cmd is Discard
            },
            ProbePoll::Failed => {
                // Swallow the error, keep the stale data, and reset so a
                // retry is eligible on the next tick.
                &&& !post.is_processing
                &&& post.start_time == 0
                &&& post.data == pre.data
                &&& cmd is Discard
            },
            ProbePoll::Pending => {
                if elapsed_since(now, pre.start_time) < timeout {
                    // Still within the deadline: leave everything alone.
                    &&& post == pre
                    &&& cmd is Retain
                } else {
                    // The probe outlived its timeout: cancel it and reset,
                    // keeping the accumulated data.
                    &&& !post.is_processing
                    &&& post.start_time == 0
                    &&& post.data == pre.data
                    &&& cmd is Cancel
                }
            },
        }
    } else {
        // Idle within the TTL window: nothing happens; a handle from an
        // earlier run is carried forward untouched.
        &&& post == pre
        &&& cmd is Retain
    }
}

/// Returns a module to Idle, eligible for an immediate relaunch.
pub fn reset_state(state: &mut Meta)
    ensures
        !final(state).is_processing,
        final(state).start_time == 0,
        final(state).data == old(state).data,
{
    state.is_processing = false;
    state.start_time = 0;
}

/// Advances one module by one tick and says what to do with its probe task.
pub fn step_module(state: &mut Meta, poll: ProbePoll, now: u64, ttl: u64, timeout: u64) -> (cmd:
    TaskCmd)
    requires
        old(state).wf(),
        poll.wf(),
    ensures
        final(state).wf(),
        step_rel(*old(state), *final(state), poll, now, ttl, timeout, cmd),
{
    if !state.is_processing && ttl <= u64::MAX - state.start_time && now > state.start_time + ttl {
        state.is_processing = true;
        state.start_time = now;
        TaskCmd::Launch
    } else if state.is_processing {
        match poll {
            ProbePoll::Completed(fields) => {
                state.data.extend(fields);
                state.is_processing = false;
                TaskCmd::Discard
            },
            ProbePoll::Failed => {
                reset_state(state);
                TaskCmd::Discard
            },
            ProbePoll::Pending => {
                let elapsed = if now >= state.start_time {
                    now - state.start_time
                } else {
                    0
                };
                if elapsed < timeout {
                    TaskCmd::Retain
                } else {
                    reset_state(state);
                    TaskCmd::Cancel
                }
            },
        }
    } else {
        TaskCmd::Retain
    }
}

/// TTL gating: while a module is Idle and its TTL has not elapsed, a tick
/// changes nothing and launches no probe.
pub proof fn lemma_ttl_gating(
    pre: Meta,
    post: Meta,
    poll: ProbePoll,
    now: u64,
    ttl: u64,
    timeout: u64,
    cmd: TaskCmd,
)
    requires
        step_rel(pre, post, poll, now, ttl, timeout, cmd),
        !pre.is_processing,
        now <= pre.start_time + ttl,
    ensures
        post == pre,
        !(cmd is Launch),
{
}

/// Timeout forces a reset: once a still-pending probe has run for its
/// timeout or longer, the tick cancels it and leaves the module Idle with
/// `start_time` zero, so it is immediately eligible to relaunch.
pub proof fn lemma_timeout_resets(
    pre: Meta,
    post: Meta,
    poll: ProbePoll,
    now: u64,
    ttl: u64,
    timeout: u64,
    cmd: TaskCmd,
)
    requires
        step_rel(pre, post, poll, now, ttl, timeout, cmd),
        pre.is_processing,
        poll is Pending,
        now >= pre.start_time + timeout,
    ensures
        !post.is_processing,
        post.start_time == 0,
        post.data == pre.data,
        cmd is Cancel,
{
}

/// Stale-value retention: neither a probe failure nor a timeout changes
/// the accumulated data, so every renderer yields for the module exactly
/// the text it yielded before the failed attempt.
pub proof fn lemma_stale_value_retention(
    pre: Meta,
    post: Meta,
    poll: ProbePoll,
    now: u64,
    ttl: u64,
    timeout: u64,
    cmd: TaskCmd,
)
    requires
        step_rel(pre, post, poll, now, ttl, timeout, cmd),
        !(poll is Completed),
    ensures
        post.data == pre.data,
        forall|kind: crate::registry::ModuleKind|
            render_spec(kind, post.data@) == render_spec(kind, pre.data@),
{
}

/// One configured module as the scheduler carries it across ticks: its
/// configuration, its refresh state, and the identifier of the probe
/// task believed in flight for it, if any.
pub struct ModuleEntry {
    pub config: ModuleConfig,
    pub state: Meta,
    pub task: Option<u64>,
}

/// How a tick moves a module's task slot: a launch binds a fresh
/// identifier, retaining keeps the slot, and a cancelled or consumed
/// probe empties it.
pub open spec fn task_rel(pre: Option<u64>, post: Option<u64>, cmd: TaskCmd, base: u64) -> bool {
    match cmd {
        TaskCmd::Launch => post is Some && post->0 >= base,
        TaskCmd::Retain => post == pre,
        TaskCmd::Cancel => post is None,
        TaskCmd::Discard => post is None,
    }
}

/// The record one displayed module contributes to a tick's batch.
pub open spec fn out_of(e: ModuleEntry) -> OutV {
    OutV {
        name: e.config.name@,
        instance: e.config.name@,
        full_text: render_spec(spec_kind_of(e.config.name@), e.state.data@),
    }
}

/// The batch a tick emits: the displayed modules, in configured order,
/// each rendered from its accumulated data.
pub open spec fn tick_outs_spec(mods: Seq<ModuleEntry>) -> Seq<OutV>
    decreases mods.len(),
{
    if mods.len() == 0 {
        Seq::empty()
    } else {
        let rest = tick_outs_spec(mods.drop_last());
        if display_of(mods.last().config) {
            rest.push(out_of(mods.last()))
        } else {
            rest
        }
    }
}

/// The tick scheduler: the configured modules with their durable states
/// and task slots, and the source of fresh task identifiers.
pub struct Scheduler {
    pub default_timeout: u64,
    pub modules: Vec<ModuleEntry>,
    pub next_task: u64,
}

impl Scheduler {
    /// Every state is well formed; every held task identifier was issued
    /// (it lies below the next fresh one) and no identifier is held by
    /// two modules — each module has at most one in-flight probe, and no
    /// probe serves two modules.
    pub open spec fn wf(self) -> bool {
        &&& forall|i: int|
            0 <= i < self.modules@.len() ==> (#[trigger] self.modules@[i]).state.wf()
        &&& forall|i: int|
            0 <= i < self.modules@.len() && (#[trigger] self.modules@[i]).task is Some
                ==> self.modules@[i].task->0 < self.next_task
        &&& forall|i: int, j: int|
            0 <= i < j < self.modules@.len() && (#[trigger] self.modules@[i]).task is Some && (
            #[trigger] self.modules@[j]).task is Some ==> self.modules@[i].task->0
                != self.modules@[j].task->0
    }

    pub fn new(default_timeout: u64) -> (r: Scheduler)
        ensures
            r.wf(),
            r.default_timeout == default_timeout,
            r.modules@.len() == 0,
            r.next_task == 0,
    {
        Scheduler { default_timeout, modules: Vec::new(), next_task: 0 }
    }

    /// Registers one more configured module, with the state loaded for
    /// it or a fresh one, and no probe in flight.
    pub fn add_module(&mut self, config: ModuleConfig, state: Meta)
        requires
            old(self).wf(),
            state.wf(),
        ensures
            final(self).wf(),
            final(self).modules@ == old(self).modules@.push(
                ModuleEntry { config, state, task: Option::None },
            ),
            final(self).default_timeout == old(self).default_timeout,
            final(self).next_task == old(self).next_task,
    {
        self.modules.push(ModuleEntry { config, state, task: Option::None });
    }

    pub fn module_count(&self) -> (r: usize)
        ensures
            r == self.modules@.len(),
    {
        self.modules.len()
    }

    /// The configured name of one module.
    pub fn module_name(&self, i: usize) -> (r: &String)
        requires
            i < self.modules@.len(),
        ensures
            r == self.modules@[i as int].config.name,
    {
        &self.modules[i].config.name
    }

    /// The refresh state one module currently holds.
    pub fn module_state(&self, i: usize) -> (r: &Meta)
        requires
            i < self.modules@.len(),
        ensures
            r == self.modules@[i as int].state,
    {
        &self.modules[i].state
    }

    /// The identifier of the task slot one module currently holds.
    pub fn module_task(&self, i: usize) -> (r: Option<u64>)
        requires
            i < self.modules@.len(),
        ensures
            r == self.modules@[i as int].task,
    {
        self.modules[i].task
    }

    /// One pass of the tick scheduler over every module: advances each
    /// state by `step_rel` against its own poll, moves each task slot by
    /// `task_rel`, and emits the displayed modules' records in
    /// configured order.
    pub fn tick(&mut self, now: u64, polls: Vec<ProbePoll>) -> (r: (Vec<Out>, Vec<TaskCmd>))
        requires
            old(self).wf(),
            polls@.len() == old(self).modules@.len(),
            forall|i: int| 0 <= i < polls@.len() ==> (#[trigger] polls@[i]).wf(),
            old(self).next_task + old(self).modules@.len() <= u64::MAX,
        ensures
            final(self).wf(),
            final(self).default_timeout == old(self).default_timeout,
            final(self).modules@.len() == old(self).modules@.len(),
            r.1@.len() == old(self).modules@.len(),
            forall|i: int|
                0 <= i < old(self).modules@.len() ==> (#[trigger] final(self).modules@[i]).config
                    == old(self).modules@[i].config,
            forall|i: int|
                0 <= i < old(self).modules@.len() ==> step_rel(
                    old(self).modules@[i].state,
                    (#[trigger] final(self).modules@[i]).state,
                    polls@[i],
                    now,
                    old(self).modules@[i].config.ttl,
                    timeout_of(old(self).modules@[i].config, old(self).default_timeout),
                    r.1@[i],
                ),
            forall|i: int|
                0 <= i < old(self).modules@.len() ==> task_rel(
                    old(self).modules@[i].task,
                    (#[trigger] final(self).modules@[i]).task,
                    r.1@[i],
                    old(self).next_task,
                ),
            r.0@.map_values(|o: Out| o@) == tick_outs_spec(final(self).modules@),
    {
        let ghost old_entries = self.modules@;
        let ghost all_polls = polls@;
        let ghost base = self.next_task;
        let n = self.modules.len();
        let mut polls = polls;
        let mut outs: Vec<Out> = Vec::new();
        let mut cmds: Vec<TaskCmd> = Vec::new();
        let mut idx: usize = 0;
        proof {
            assert(all_polls.skip(0) =~= all_polls);
            assert(self.modules@.take(0) =~= Seq::<ModuleEntry>::empty());
            assert(outs@.map_values(|o: Out| o@) =~= tick_outs_spec(self.modules@.take(0)));
        }
        while idx < n
            invariant
                idx <= n,
                n == self.modules@.len(),
                n == old_entries.len(),
                n == all_polls.len(),
                forall|i: int| 0 <= i < n ==> (#[trigger] all_polls[i]).wf(),
                polls@ == all_polls.skip(idx as int),
                cmds@.len() == idx,
                self.default_timeout == old(self).default_timeout,
                base == old(self).next_task,
                base + n <= u64::MAX,
                base <= self.next_task <= base + idx,
                forall|i: int| idx <= i < n ==> #[trigger] self.modules@[i] == old_entries[i],
                forall|i: int|
                    0 <= i < idx ==> (#[trigger] self.modules@[i]).config
                        == old_entries[i].config,
                forall|i: int|
                    0 <= i < idx ==> (#[trigger] self.modules@[i]).state.wf(),
                forall|i: int|
                    0 <= i < n ==> (#[trigger] old_entries[i]).state.wf(),
                forall|i: int|
                    0 <= i < idx ==> step_rel(
                        old_entries[i].state,
                        (#[trigger] self.modules@[i]).state,
                        all_polls[i],
                        now,
                        old_entries[i].config.ttl,
                        timeout_of(old_entries[i].config, old(self).default_timeout),
                        cmds@[i],
                    ),
                forall|i: int|
                    0 <= i < idx ==> task_rel(
                        old_entries[i].task,
                        (#[trigger] self.modules@[i]).task,
                        cmds@[i],
                        base,
                    ),
                forall|i: int|
                    0 <= i < n && (#[trigger] self.modules@[i]).task is Some
                        ==> self.modules@[i].task->0 < self.next_task,
                forall|i: int, j: int|
                    0 <= i < j < n && (#[trigger] self.modules@[i]).task is Some && (
                    #[trigger] self.modules@[j]).task is Some ==> self.modules@[i].task->0
                        != self.modules@[j].task->0,
                outs@.map_values(|o: Out| o@) == tick_outs_spec(self.modules@.take(idx as int)),
            decreases n - idx,
        {
            let ghost mods_before = self.modules@;
            let mut entry = self.modules.remove(idx);
            let poll = polls.remove(0);
            proof {
                assert(all_polls.skip(idx as int)[0] == all_polls[idx as int]);
                assert(polls@ =~= all_polls.skip(idx + 1));
            }
            let ttl = entry.config.ttl;
            let timeout = match entry.config.timeout {
                Some(t) => t,
                None => self.default_timeout,
            };
            let cmd = step_module(&mut entry.state, poll, now, ttl, timeout);
            match cmd {
                TaskCmd::Launch => {
                    entry.task = Some(self.next_task);
                    self.next_task = self.next_task + 1;
                },
                TaskCmd::Retain => {},
                TaskCmd::Cancel => {
                    entry.task = None;
                },
                TaskCmd::Discard => {
                    entry.task = None;
                },
            }
            let display = match entry.config.display {
                Some(d) => d,
                None => true,
            };
            if display {
                let kind = get_handler(entry.config.name.as_str());
                let full_text = render_module(kind, &entry.state.data);
                let out = Out {
                    name: entry.config.name.clone(),
                    instance: entry.config.name.clone(),
                    full_text,
                };
                proof {
                    assert(out@ == out_of(entry));
                }
                outs.push(out);
            }
            cmds.push(cmd);
            self.modules.insert(idx, entry);
            proof {
                assert(self.modules@ =~= mods_before.update(idx as int, entry));
                let taken = self.modules@.take(idx + 1);
                assert(taken.drop_last() =~= mods_before.take(idx as int));
                assert(taken.last() == entry);
                assert(mods_before.take(idx as int) =~= self.modules@.take(idx as int));
                if display_of(entry.config) {
                    assert(outs@.map_values(|o: Out| o@) =~= tick_outs_spec(
                        mods_before.take(idx as int),
                    ).push(out_of(entry)));
                } else {
                    assert(outs@.map_values(|o: Out| o@) == tick_outs_spec(taken));
                }
            }
            idx += 1;
        }
        proof {
            assert(self.modules@.take(n as int) =~= self.modules@);
        }
        (outs, cmds)
    }
}

/// Single in-flight invariant: in a well-formed scheduler each module
/// holds at most one probe-task slot by construction, and no task
/// identifier is held under two module keys at once.
pub proof fn lemma_single_inflight(s: Scheduler, i: int, j: int)
    requires
        s.wf(),
        0 <= i < s.modules@.len(),
        0 <= j < s.modules@.len(),
        i != j,
        s.modules@[i].task is Some,
        s.modules@[j].task is Some,
    ensures
        s.modules@[i].task->0 != s.modules@[j].task->0,
{
}

/// Display suppression: a module whose display flag is off contributes
/// no record — the batch is exactly that of the configuration without
/// it, while the module's state keeps stepping like any other.
pub proof fn lemma_display_suppression(mods: Seq<ModuleEntry>, i: int)
    requires
        0 <= i < mods.len(),
        !display_of(mods[i].config),
    ensures
        tick_outs_spec(mods) == tick_outs_spec(mods.remove(i)),
    decreases mods.len(),
{
    if i == mods.len() - 1 {
        assert(mods.remove(i) =~= mods.drop_last());
    } else {
        let shorter = mods.drop_last();
        lemma_display_suppression(shorter, i);
        assert(mods.remove(i).drop_last() =~= shorter.remove(i));
        assert(mods.remove(i).last() == mods.last());
    }
}

/// Order determinism: the emitted batch is a function of the configured
/// order and each module's accumulated data alone; probe timing, task
/// identity and the processing flags have no effect on it.
pub proof fn lemma_order_determinism(a: Seq<ModuleEntry>, b: Seq<ModuleEntry>)
    requires
        a.len() == b.len(),
        forall|i: int| 0 <= i < a.len() ==> (#[trigger] a[i]).config == b[i].config,
        forall|i: int| 0 <= i < a.len() ==> (#[trigger] a[i]).state.data@ == b[i].state.data@,
    ensures
        tick_outs_spec(a) == tick_outs_spec(b),
    decreases a.len(),
{
    if a.len() > 0 {
        lemma_order_determinism(a.drop_last(), b.drop_last());
        assert(a.last() == a[a.len() - 1]);
        assert(b.last() == b[b.len() - 1]);
        assert(out_of(a.last()) == out_of(b.last()));
    }
}

} // verus!
