use launcher::frame::{plan_frame, DebugState, DrawQueue, FramePlan};
use launcher::reload::{HostPhase, LoadError, ReloadOrchestrator, ReloadStep};
use launcher::watcher::ChangeFlag;

#[test]
fn burst_of_changes_gives_one_signal() {
    let mut flag = ChangeFlag::new();
    for _ in 0..5 {
        flag.raise();
    }
    assert!(flag.is_pending());
    assert!(flag.poll_and_clear());
    assert!(!flag.poll_and_clear());
    assert!(!flag.poll_and_clear());
}

#[test]
fn spaced_changes_give_one_signal_each() {
    let mut flag = ChangeFlag::new();
    let mut signals = 0;
    for _ in 0..4 {
        flag.raise();
        if flag.poll_and_clear() {
            signals += 1;
        }
    }
    assert_eq!(signals, 4);
    assert!(!flag.poll_and_clear());
}

fn running_host() -> ReloadOrchestrator {
    let mut host = ReloadOrchestrator::new();
    match host.finish_reload(Ok(())) {
        ReloadStep::Resumed { generation, snapshot } => {
            assert_eq!(generation, 1);
            assert_eq!(snapshot, None);
        }
        _ => panic!("first load should resume"),
    }
    host
}

#[test]
fn first_load_failure_is_fatal() {
    let mut host = ReloadOrchestrator::new();
    assert_eq!(host.phase(), HostPhase::Reloading);
    assert!(!host.may_run_frame());
    match host.finish_reload(Err(LoadError::Compile)) {
        ReloadStep::Fatal(e) => assert_eq!(e, LoadError::Compile),
        _ => panic!("expected a fatal step"),
    }
    assert_eq!(host.phase(), HostPhase::Failed);
    assert!(!host.reload_due(true));
}

#[test]
fn failed_reload_keeps_previous_instance() {
    let mut host = running_host();
    assert!(host.may_run_frame());
    assert!(!host.reload_due(false));
    assert!(host.reload_due(true));
    assert!(host.wants_snapshot());
    host.begin_reload(Some(vec![1, 2, 3]));
    assert_eq!(host.phase(), HostPhase::Reloading);
    match host.finish_reload(Err(LoadError::Link)) {
        ReloadStep::KeptPrevious(e) => assert_eq!(e, LoadError::Link),
        _ => panic!("expected the previous instance to be kept"),
    }
    assert_eq!(host.phase(), HostPhase::Running);
    assert_eq!(host.generation(), 1);
    assert!(host.may_run_frame());
}

#[test]
fn successful_reload_hands_snapshot_over() {
    let mut host = running_host();
    assert_eq!(host.candidate_generation(), Some(2));
    host.begin_reload(Some(b"{\"score\":4}".to_vec()));
    match host.finish_reload(Ok(())) {
        ReloadStep::Resumed { generation, snapshot } => {
            assert_eq!(generation, 2);
            assert_eq!(snapshot, Some(b"{\"score\":4}".to_vec()));
        }
        _ => panic!("expected a resumed instance"),
    }
    assert_eq!(host.generation(), 2);
}

#[test]
fn failed_save_starts_fresh() {
    let mut host = running_host();
    host.begin_reload(None);
    match host.finish_reload(Ok(())) {
        ReloadStep::Resumed { snapshot, .. } => assert_eq!(snapshot, None),
        _ => panic!("expected a resumed instance"),
    }
}

#[test]
fn trapped_instance_waits_for_reload() {
    let mut host = running_host();
    host.instance_trapped();
    assert_eq!(host.phase(), HostPhase::Poisoned);
    assert!(!host.may_run_frame());
    assert!(!host.wants_snapshot());
    assert!(host.reload_due(true));
    host.begin_reload(Some(vec![9]));
    match host.finish_reload(Err(LoadError::ImageRead)) {
        ReloadStep::Stalled(e) => assert_eq!(e, LoadError::ImageRead),
        _ => panic!("expected a stalled host"),
    }
    assert_eq!(host.phase(), HostPhase::Poisoned);
    host.begin_reload(None);
    match host.finish_reload(Ok(())) {
        ReloadStep::Resumed { generation, snapshot } => {
            assert_eq!(generation, 2);
            assert_eq!(snapshot, None);
        }
        _ => panic!("expected a resumed instance"),
    }
}

#[test]
fn trapped_instance_snapshot_is_dropped() {
    let mut host = running_host();
    host.instance_trapped();
    host.begin_reload(Some(vec![1]));
    match host.finish_reload(Ok(())) {
        ReloadStep::Resumed { snapshot, .. } => assert_eq!(snapshot, None),
        _ => panic!("expected a resumed instance"),
    }
}

#[test]
fn frame_without_debug_keys_always_updates() {
    let mut debug = DebugState { skip_update: true };
    let plan = plan_frame(&mut debug, false, true, true);
    assert_eq!(plan, FramePlan { update: true, dump_state: false, skip_banner: false });
    assert!(debug.skip_update);
}

#[test]
fn f1_toggles_skip_from_next_frame() {
    let mut debug = DebugState::default();
    let first = plan_frame(&mut debug, true, true, false);
    assert_eq!(first, FramePlan { update: true, dump_state: false, skip_banner: false });
    assert!(debug.skip_update);
    let second = plan_frame(&mut debug, true, false, true);
    assert_eq!(second, FramePlan { update: false, dump_state: true, skip_banner: true });
    debug.toggle_skip_update();
    assert!(!debug.skip_update);
}

#[test]
fn draw_queue_flushes_in_order() {
    let mut queue: DrawQueue<&str> = DrawQueue::new();
    queue.push("a.png");
    queue.push("b.png");
    assert_eq!(queue.len(), 2);
    assert_eq!(queue.drain(), vec!["a.png", "b.png"]);
    assert_eq!(queue.len(), 0);
    assert!(queue.drain().is_empty());
}
