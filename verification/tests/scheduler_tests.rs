use swaybar::fields::FieldMap;
use swaybar::scheduler::{ProbePoll, Scheduler, TaskCmd};
use swaybar::types::{Meta, ModuleConfig};

fn module(name: &str, ttl: u64, timeout: Option<u64>, display: Option<bool>) -> ModuleConfig {
    ModuleConfig { name: name.to_string(), ttl, timeout, display }
}

fn pending_polls(n: usize) -> Vec<ProbePoll> {
    let mut polls = Vec::new();
    for _ in 0..n {
        polls.push(ProbePoll::Pending);
    }
    polls
}

fn fields(pairs: &[(&str, &str)]) -> FieldMap {
    let mut m = FieldMap::new();
    for (k, v) in pairs {
        m.insert(k.to_string(), v.to_string());
    }
    m
}

#[test]
fn ttl_gating_keeps_idle_state() {
    let mut sched = Scheduler::new(2000);
    let mut state = Meta::idle();
    state.start_time = 10_000;
    sched.add_module(module("battery", 5000, None, None), state);

    // Within the TTL window nothing changes and nothing launches.
    let (outs, cmds) = sched.tick(15_000, pending_polls(1));
    assert_eq!(cmds, vec![TaskCmd::Retain]);
    assert_eq!(outs.len(), 1);
    let st = sched.module_state(0);
    assert!(!st.is_processing);
    assert_eq!(st.start_time, 10_000);

    // One millisecond past the window the probe launches.
    let (_, cmds) = sched.tick(15_001, pending_polls(1));
    assert_eq!(cmds, vec![TaskCmd::Launch]);
    let st = sched.module_state(0);
    assert!(st.is_processing);
    assert_eq!(st.start_time, 15_001);
}

#[test]
fn battery_scenario_full_cycle() {
    // Module "battery", ttl 5000 ms, timeout 2000 ms, Idle with empty data.
    let mut sched = Scheduler::new(9999);
    sched.add_module(module("battery", 5000, Some(2000), None), Meta::idle());

    // Past the TTL the first probe launches.
    let (outs, cmds) = sched.tick(5001, pending_polls(1));
    assert_eq!(cmds, vec![TaskCmd::Launch]);
    assert!(sched.module_state(0).is_processing);
    assert_eq!(sched.module_state(0).start_time, 5001);
    assert_eq!(outs[0].full_text, " %");

    // The probe returns capacity and status: back to Idle, data merged.
    let res = fields(&[("capacity", "80"), ("status", "discharging")]);
    let (outs, cmds) = sched.tick(6001, vec![ProbePoll::Completed(res)]);
    assert_eq!(cmds, vec![TaskCmd::Discard]);
    assert!(!sched.module_state(0).is_processing);
    assert_eq!(sched.module_state(0).start_time, 5001);
    assert_eq!(outs[0].full_text, "\u{1f50b} 80%");

    // The TTL elapses again and a second probe launches.
    let (_, cmds) = sched.tick(10_002, pending_polls(1));
    assert_eq!(cmds, vec![TaskCmd::Launch]);
    assert_eq!(sched.module_state(0).start_time, 10_002);

    // That probe never completes: past the timeout it is cancelled, the
    // module resets to Idle with start time zero, and the data stays.
    let (outs, cmds) = sched.tick(12_002, pending_polls(1));
    assert_eq!(cmds, vec![TaskCmd::Cancel]);
    let st = sched.module_state(0);
    assert!(!st.is_processing);
    assert_eq!(st.start_time, 0);
    assert_eq!(outs[0].full_text, "\u{1f50b} 80%");

    // Start time zero makes it eligible on the very next tick.
    let (_, cmds) = sched.tick(12_003, pending_polls(1));
    assert_eq!(cmds, vec![TaskCmd::Launch]);
}

#[test]
fn timeout_only_after_deadline() {
    let mut sched = Scheduler::new(2000);
    sched.add_module(module("wifi", 1000, None, None), Meta::idle());
    let (_, cmds) = sched.tick(5000, pending_polls(1));
    assert_eq!(cmds, vec![TaskCmd::Launch]);

    // Just inside the deadline the probe is kept.
    let (_, cmds) = sched.tick(6999, pending_polls(1));
    assert_eq!(cmds, vec![TaskCmd::Retain]);
    assert!(sched.module_state(0).is_processing);

    // At the deadline it is cancelled.
    let (_, cmds) = sched.tick(7000, pending_polls(1));
    assert_eq!(cmds, vec![TaskCmd::Cancel]);
    assert!(!sched.module_state(0).is_processing);
    assert_eq!(sched.module_state(0).start_time, 0);
}

#[test]
fn probe_failure_keeps_stale_data_and_resets() {
    let mut sched = Scheduler::new(2000);
    let mut state = Meta::idle();
    state.data = fields(&[("capacity", "55"), ("status", "charging")]);
    sched.add_module(module("battery", 1000, None, None), state);

    let (outs, cmds) = sched.tick(4000, pending_polls(1));
    assert_eq!(cmds, vec![TaskCmd::Launch]);
    let before = outs[0].full_text.clone();
    assert_eq!(before, "\u{26a1} 55%");

    // The probe fails: the error is swallowed, the data is untouched,
    // and the module is reset for an immediate retry.
    let (outs, cmds) = sched.tick(4500, vec![ProbePoll::Failed]);
    assert_eq!(cmds, vec![TaskCmd::Discard]);
    let st = sched.module_state(0);
    assert!(!st.is_processing);
    assert_eq!(st.start_time, 0);
    assert_eq!(outs[0].full_text, before);
}

#[test]
fn completion_merges_fields_over_old_ones() {
    let mut sched = Scheduler::new(2000);
    let mut state = Meta::idle();
    state.data = fields(&[("capacity", "55"), ("status", "charging")]);
    sched.add_module(module("battery", 1000, None, None), state);

    let (_, cmds) = sched.tick(4000, pending_polls(1));
    assert_eq!(cmds, vec![TaskCmd::Launch]);

    // The new result overwrites matching fields and keeps the others.
    let res = fields(&[("capacity", "54")]);
    let (outs, _) = sched.tick(4100, vec![ProbePoll::Completed(res)]);
    assert_eq!(outs[0].full_text, "\u{26a1} 54%");
}

#[test]
fn display_false_suppresses_output_but_state_updates() {
    let mut sched = Scheduler::new(2000);
    sched.add_module(module("battery", 1000, None, Some(false)), Meta::idle());
    sched.add_module(module("wifi", 1000, None, Some(true)), Meta::idle());

    let (outs, cmds) = sched.tick(5000, pending_polls(2));
    assert_eq!(cmds, vec![TaskCmd::Launch, TaskCmd::Launch]);
    // The hidden module still launched and tracks state...
    assert!(sched.module_state(0).is_processing);
    // ...but contributed no record.
    assert_eq!(outs.len(), 1);
    assert_eq!(outs[0].name, "wifi");
}

#[test]
fn output_preserves_configured_order() {
    let mut sched = Scheduler::new(2000);
    sched.add_module(module("volume", 1000, None, None), Meta::idle());
    sched.add_module(module("battery", 1000, None, Some(false)), Meta::idle());
    sched.add_module(module("date", 1000, None, None), Meta::idle());
    sched.add_module(module("wifi", 1000, None, None), Meta::idle());

    let polls = pending_polls(4);
    let (outs, _) = sched.tick(5000, polls);
    let names: Vec<&str> = outs.iter().map(|o| o.name.as_str()).collect();
    assert_eq!(names, vec!["volume", "date", "wifi"]);
    for o in &outs {
        assert_eq!(o.name, o.instance);
    }
}

#[test]
fn launched_tasks_get_distinct_identifiers() {
    let mut sched = Scheduler::new(2000);
    sched.add_module(module("a", 1000, None, None), Meta::idle());
    sched.add_module(module("b", 1000, None, None), Meta::idle());
    sched.add_module(module("c", 1000, None, None), Meta::idle());

    let (_, cmds) = sched.tick(5000, pending_polls(3));
    assert_eq!(cmds, vec![TaskCmd::Launch, TaskCmd::Launch, TaskCmd::Launch]);
    let a = sched.module_task(0).unwrap();
    let b = sched.module_task(1).unwrap();
    let c = sched.module_task(2).unwrap();
    assert!(a != b && b != c && a != c);
}

#[test]
fn reset_state_clears_flags_only() {
    let mut state = Meta::idle();
    state.is_processing = true;
    state.start_time = 123;
    state.data = fields(&[("k", "v")]);
    swaybar::scheduler::reset_state(&mut state);
    assert!(!state.is_processing);
    assert_eq!(state.start_time, 0);
    assert_eq!(state.data.get("k").unwrap(), "v");
}
