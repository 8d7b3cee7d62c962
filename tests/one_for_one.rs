use zestors::one_for_one::{
    ExitOutcome, OneForOneSpec, SlotKind, Specification, StartOutcome, StartProgress,
    START_SLACK_MS,
};

#[derive(Debug, PartialEq)]
struct Leaf {
    name: &'static str,
    timeout: u64,
}

impl Specification for Leaf {
    fn spec_start_timeout(&self) -> u64 {
        self.timeout
    }

    fn start_timeout(&self) -> u64 {
        self.timeout
    }
}

fn leaf(name: &'static str, timeout: u64) -> Leaf {
    Leaf { name, timeout }
}

#[test]
fn group_builder_keeps_order_and_pops_last() {
    let mut group = OneForOneSpec::new(1, 1000).with_spec(leaf("a", 5)).with_spec(leaf("b", 50));
    group.add_spec(leaf("c", 20));
    assert_eq!(group.fan_out_time(), 50 + START_SLACK_MS);
    assert_eq!(group.pop_spec(), Some(leaf("c", 20)));
    assert_eq!(group.pop_spec(), Some(leaf("b", 50)));
    assert_eq!(group.pop_spec(), Some(leaf("a", 5)));
    assert_eq!(group.pop_spec(), None);
    assert_eq!(group.fan_out_time(), START_SLACK_MS);
}

#[test]
fn group_fan_out_time_saturates() {
    let group = OneForOneSpec::new(1, 1000).with_spec(leaf("a", u64::MAX - 3));
    assert_eq!(group.fan_out_time(), u64::MAX);
    let nested = OneForOneSpec::new(1, 1000).with_spec(group);
    assert_eq!(nested.start_timeout(), u64::MAX);
}

#[test]
fn empty_group_starts_at_once() {
    let group: OneForOneSpec<Leaf> = OneForOneSpec::new(1, 1000);
    let (fut, specs) = group.start(0);
    assert!(specs.is_empty());
    assert_eq!(fut.deadline(), START_SLACK_MS);
    match fut.advance(0) {
        StartProgress::Started(sup) => assert!(sup.slot_kinds().is_empty()),
        _ => panic!("an empty group did not start at once"),
    }
}

#[test]
fn three_children_start_before_deadline() {
    let group = OneForOneSpec::new(1, 1000)
        .with_spec(leaf("a", 100))
        .with_spec(leaf("b", 200))
        .with_spec(leaf("c", 300));
    let (mut fut, specs) = group.start(1000);
    assert_eq!(specs, vec![leaf("a", 100), leaf("b", 200), leaf("c", 300)]);
    assert_eq!(fut.deadline(), 1000 + 300 + START_SLACK_MS);
    assert_eq!(fut.slot_kinds(), vec![SlotKind::Starting; 3]);

    fut.on_start_outcome(1, StartOutcome::Started, 1010);
    fut = match fut.advance(1010) {
        StartProgress::Waiting(f) => f,
        _ => panic!("resolved while two children were starting"),
    };
    fut.on_start_outcome(0, StartOutcome::Started, 1020);
    fut = match fut.advance(1020) {
        StartProgress::Waiting(f) => f,
        _ => panic!("resolved while a child was starting"),
    };
    fut.on_start_outcome(2, StartOutcome::Started, 1030);
    match fut.advance(1030) {
        StartProgress::Started(sup) => {
            assert_eq!(sup.slot_kinds(), vec![SlotKind::Running; 3]);
        }
        _ => panic!("the group did not start"),
    }
}

#[test]
fn spent_budget_fails_group_despite_healthy_children() {
    let group = OneForOneSpec::new(0, 1000)
        .with_spec(leaf("a", 100))
        .with_spec(leaf("b", 100))
        .with_spec(leaf("c", 100));
    let (mut fut, _specs) = group.start(0);
    fut.on_start_outcome(0, StartOutcome::Started, 10);
    fut.on_start_outcome(1, StartOutcome::Started, 20);
    assert!(!fut.is_draining());
    fut.on_start_outcome(2, StartOutcome::Failed(leaf("c", 100)), 30);
    assert!(fut.is_draining());
    assert!(fut.is_budget_spent());
    assert_eq!(fut.deadline(), 30 + 100 + START_SLACK_MS);
    assert_eq!(
        fut.slot_kinds(),
        vec![SlotKind::Running, SlotKind::Running, SlotKind::Pending]
    );
    match fut.advance(40) {
        StartProgress::Irrecoverable(fault) => {
            assert_eq!(fault.slots.len(), 3);
            assert_eq!(fault.limiter.limit(), 0);
            assert_eq!(fault.limiter.within(), 1000);
        }
        _ => panic!("the group did not fail"),
    }
}

#[test]
fn irrecoverable_child_with_spent_budget_fails_group() {
    let group = OneForOneSpec::new(0, 1000)
        .with_spec(leaf("a", 100))
        .with_spec(leaf("b", 100))
        .with_spec(leaf("c", 100));
    let (mut fut, _specs) = group.start(0);
    fut.on_start_outcome(0, StartOutcome::Started, 10);
    fut.on_start_outcome(1, StartOutcome::Started, 20);
    fut.on_start_outcome(2, StartOutcome::Irrecoverable("boom".to_string()), 30);
    assert!(fut.is_draining());
    match fut.advance(40) {
        StartProgress::Irrecoverable(fault) => assert_eq!(fault.slots.len(), 3),
        _ => panic!("the group did not fail"),
    }
}

#[test]
fn recoverable_failures_beyond_budget_drain_group() {
    let group = OneForOneSpec::new(1, 1000)
        .with_spec(leaf("a", 100))
        .with_spec(leaf("b", 100))
        .with_spec(leaf("c", 100));
    let (mut fut, _specs) = group.start(0);
    fut.on_start_outcome(0, StartOutcome::Started, 5);
    fut.on_start_outcome(2, StartOutcome::Failed(leaf("c", 100)), 10);
    assert!(!fut.is_draining());
    assert_eq!(
        fut.slot_kinds(),
        vec![SlotKind::Running, SlotKind::Starting, SlotKind::Pending]
    );
    fut = match fut.advance(20) {
        StartProgress::Waiting(f) => f,
        _ => panic!("resolved while a child was starting"),
    };
    // The deadline passes with child 1 still starting: the group drains.
    fut = match fut.advance(110) {
        StartProgress::Waiting(f) => f,
        _ => panic!("resolved at the first deadline"),
    };
    assert!(fut.is_draining());
    assert_eq!(fut.deadline(), 110 + 110);
    match fut.advance(220) {
        StartProgress::Irrecoverable(fault) => assert_eq!(fault.slots.len(), 3),
        _ => panic!("the group did not fail"),
    }
}

#[test]
fn spent_budget_fails_group_after_drain() {
    let group = OneForOneSpec::new(0, 1000).with_spec(leaf("a", 100)).with_spec(leaf("b", 100));
    let (mut fut, _specs) = group.start(0);
    fut.on_start_outcome(0, StartOutcome::Failed(leaf("a", 100)), 1);
    assert!(fut.is_draining());
    fut = match fut.advance(2) {
        StartProgress::Waiting(f) => f,
        _ => panic!("resolved while a child was starting"),
    };
    fut.on_start_outcome(1, StartOutcome::Started, 3);
    fut.on_exit(1, ExitOutcome::Finished);
    match fut.advance(4) {
        StartProgress::Irrecoverable(fault) => {
            assert_eq!(fault.slots.len(), 2);
        }
        _ => panic!("the group ran with its budget spent"),
    }
}

#[test]
fn deadline_drain_runs_when_nothing_failed() {
    let group = OneForOneSpec::new(1, 1000).with_spec(leaf("a", 100)).with_spec(leaf("b", 100));
    let (mut fut, _specs) = group.start(0);
    fut.on_start_outcome(0, StartOutcome::Started, 5);
    fut = match fut.advance(110) {
        StartProgress::Waiting(f) => f,
        _ => panic!("resolved at the first deadline"),
    };
    assert!(fut.is_draining());
    assert!(!fut.is_budget_spent());
    assert_eq!(fut.deadline(), 220);
    fut.on_start_outcome(1, StartOutcome::Started, 150);
    match fut.advance(150) {
        StartProgress::Started(sup) => {
            assert_eq!(sup.slot_kinds(), vec![SlotKind::Running, SlotKind::Running]);
        }
        _ => panic!("the group did not run"),
    }
}

#[test]
fn completed_children_count_as_up() {
    let group = OneForOneSpec::new(1, 1000).with_spec(leaf("a", 100)).with_spec(leaf("b", 100));
    let (mut fut, _specs) = group.start(0);
    fut.on_start_outcome(0, StartOutcome::Completed, 1);
    fut.on_start_outcome(1, StartOutcome::Started, 2);
    match fut.advance(3) {
        StartProgress::Started(sup) => {
            assert_eq!(sup.slot_kinds(), vec![SlotKind::Done, SlotKind::Running]);
        }
        _ => panic!("the group did not start"),
    }
}

fn running_group() -> zestors::one_for_one::OneForOneSupervisee<Leaf> {
    let group = OneForOneSpec::new(1, 1000)
        .with_spec(leaf("a", 100))
        .with_spec(leaf("b", 100))
        .with_spec(leaf("c", 100))
        .with_spec(leaf("d", 100));
    let (mut fut, _specs) = group.start(0);
    fut.on_start_outcome(0, StartOutcome::Started, 1);
    fut.on_start_outcome(1, StartOutcome::Completed, 1);
    fut.on_start_outcome(2, StartOutcome::Started, 1);
    fut.on_start_outcome(3, StartOutcome::Started, 1);
    match fut.advance(2) {
        StartProgress::Started(sup) => sup,
        _ => panic!("the group did not start"),
    }
}

#[test]
fn halt_signals_each_running_child_once() {
    let mut sup = running_group();
    assert!(sup.on_exit(3, ExitOutcome::Fatal("crash".to_string()), 10));
    assert_eq!(
        sup.slot_kinds(),
        vec![SlotKind::Running, SlotKind::Done, SlotKind::Running, SlotKind::Failed]
    );
    assert_eq!(sup.halt(), vec![0, 2]);
    assert_eq!(sup.halt(), Vec::<usize>::new());
    assert_eq!(
        sup.slot_kinds(),
        vec![SlotKind::Running, SlotKind::Done, SlotKind::Running, SlotKind::Failed]
    );
}

#[test]
fn abort_signals_each_running_child_once() {
    let mut sup = running_group();
    assert_eq!(sup.abort(), vec![0, 2, 3]);
    assert_eq!(sup.abort(), Vec::<usize>::new());
    assert_eq!(sup.halt(), vec![0, 2, 3]);
    assert_eq!(sup.shutdown_time(), u64::MAX);
}

#[test]
fn running_exits_use_budget() {
    let mut sup = running_group();
    assert!(sup.on_exit(0, ExitOutcome::Finished, 5));
    assert!(sup.on_exit(2, ExitOutcome::Restart(leaf("c", 100)), 6));
    assert!(!sup.on_exit(3, ExitOutcome::Fatal("crash".to_string()), 7));
    assert_eq!(
        sup.slot_kinds(),
        vec![SlotKind::Done, SlotKind::Done, SlotKind::Pending, SlotKind::Failed]
    );
}
