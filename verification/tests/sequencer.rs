use guest_init::bootstrap::BootPlan;
use guest_init::config::GuestFile;
use guest_init::error::{Cause, InitError, OpKind};
use guest_init::plan::{MountFlags, Operation, Step};
use guest_init::sequencer::{classify, Progress, Sequencer, StepOutcome};

fn sequencer() -> Sequencer {
    Sequencer::new(BootPlan::new(Vec::new(), "guest"))
}

fn with_file() -> Sequencer {
    let file = GuestFile { path: "/srv/app.conf".to_string(), contents: b"x".to_vec() };
    Sequencer::new(BootPlan::new(vec![file], "guest"))
}

fn advance_to(mut s: Sequencer, n: usize) -> Sequencer {
    while s.completed() < n {
        let (next, progress) = s.record(StepOutcome::Done);
        assert_eq!(progress, Progress::Advanced);
        s = next;
    }
    s
}

fn error(kind: OpKind, subject: &str, origin: Option<&str>, errno: i32) -> InitError {
    InitError {
        kind,
        subject: subject.to_string(),
        origin: origin.map(|o| o.to_string()),
        cause: Cause::Errno(errno),
    }
}

#[test]
fn steps_are_handed_out_in_the_order_of_the_plan() {
    let plan = BootPlan::new(Vec::new(), "guest");
    let expected: Vec<Step> = (0..plan.len()).map(|i| plan.get(i).unwrap().clone()).collect();
    let mut s = Sequencer::new(plan);
    let mut seen = Vec::new();
    while let Some(step) = s.pending() {
        seen.push(step.clone());
        assert_eq!(s.completed() + 1, seen.len());
        s = s.record(StepOutcome::Done).0;
    }
    assert_eq!(seen, expected);
    assert!(s.finished());
    assert!(s.failure().is_none());
    assert_eq!(s.completed(), 61);
}

#[test]
fn fresh_sequencer_is_neither_finished_nor_failed() {
    let s = sequencer();
    assert!(!s.finished());
    assert!(s.failure().is_none());
    assert_eq!(s.completed(), 0);
    assert_eq!(s.pending(), Some(&Step::make_dir("/dev", 0o700, true)));
}

#[test]
fn failed_directory_creation_halts_with_its_path() {
    let (s, progress) = sequencer().record(StepOutcome::Failed { errno: 13 });
    assert_eq!(progress, Progress::Halted);
    assert_eq!(s.failure(), Some(&error(OpKind::CreateDirectory, "/dev", None, 13)));
    assert_eq!(s.pending(), None);
    assert!(!s.finished());
    assert_eq!(s.completed(), 0);
}

#[test]
fn failed_mount_halts_with_source_and_target() {
    let s = advance_to(sequencer(), 3);
    let (s, progress) = s.record(StepOutcome::Failed { errno: 19 });
    assert_eq!(progress, Progress::Halted);
    assert_eq!(s.failure(), Some(&error(OpKind::Mount, "/newroot", Some("/dev/vdb"), 19)));
    assert_eq!(s.completed(), 3);
}

#[test]
fn failed_change_of_directory_halts() {
    let s = advance_to(sequencer(), 6);
    let (s, progress) = s.record(StepOutcome::Failed { errno: 2 });
    assert_eq!(progress, Progress::Halted);
    assert_eq!(s.failure(), Some(&error(OpKind::ChangeDirectory, "/newroot", None, 2)));
}

#[test]
fn failed_change_of_root_halts() {
    let s = advance_to(sequencer(), 8);
    let (s, progress) = s.record(StepOutcome::Failed { errno: 1 });
    assert_eq!(progress, Progress::Halted);
    assert_eq!(s.failure(), Some(&error(OpKind::ChangeRoot, ".", None, 1)));
}

#[test]
fn failed_file_write_halts() {
    let s = advance_to(with_file(), 57);
    assert_eq!(s.pending(), Some(&Step::write_file("/srv/app.conf", b"x".to_vec())));
    let (s, progress) = s.record(StepOutcome::Failed { errno: 28 });
    assert_eq!(progress, Progress::Halted);
    assert_eq!(s.failure(), Some(&error(OpKind::WriteFile, "/srv/app.conf", None, 28)));
}

#[test]
fn every_required_step_halts_when_it_fails() {
    let plan = BootPlan::new(Vec::new(), "guest");
    let steps: Vec<Step> = (0..plan.len()).map(|i| plan.get(i).unwrap().clone()).collect();
    let mut required = 0;
    for (i, step) in steps.iter().enumerate() {
        let s = advance_to(sequencer(), i);
        let (s, progress) = s.record(StepOutcome::Failed { errno: 5 });
        if step.required {
            required += 1;
            assert_eq!(progress, Progress::Halted);
            assert_eq!(s.failure(), Some(&classify(step, 5)));
            assert_eq!(s.pending(), None);
            assert_eq!(s.completed(), i);
        } else {
            assert_eq!(progress, Progress::Tolerated(classify(step, 5)));
            assert!(s.failure().is_none());
            assert_eq!(s.completed(), i + 1);
        }
    }
    assert_eq!(required, 31);
}

#[test]
fn existing_directory_is_tolerated() {
    let s = advance_to(sequencer(), 4);
    let (s, progress) = s.record(StepOutcome::Failed { errno: 17 });
    assert_eq!(
        progress,
        Progress::Tolerated(error(OpKind::CreateDirectory, "/newroot/dev", None, 17))
    );
    assert_eq!(
        s.pending(),
        Some(&Step::mount("/dev", "/newroot/dev", None, MountFlags::moving(), None))
    );
    assert!(s.failure().is_none());
}

#[test]
fn existing_link_is_tolerated() {
    let s = advance_to(sequencer(), 27);
    assert_eq!(s.pending(), Some(&Step::symlink("/proc/self/fd", "/dev/fd")));
    let (s, progress) = s.record(StepOutcome::Failed { errno: 17 });
    assert_eq!(
        progress,
        Progress::Tolerated(error(OpKind::Symlink, "/dev/fd", Some("/proc/self/fd"), 17))
    );
    assert_eq!(s.completed(), 28);
}

#[test]
fn refused_descriptor_limit_is_tolerated() {
    let s = advance_to(sequencer(), 32);
    let (s, progress) = s.record(StepOutcome::Failed { errno: 1 });
    assert_eq!(progress, Progress::Tolerated(error(OpKind::ResourceLimit, "nofile", None, 1)));
    assert_eq!(s.completed(), 33);
}

#[test]
fn refused_host_name_is_tolerated_and_ends_the_plan() {
    let s = advance_to(sequencer(), 60);
    assert_eq!(s.pending(), Some(&Step::set_hostname("guest")));
    let (s, progress) = s.record(StepOutcome::Failed { errno: 1 });
    assert_eq!(progress, Progress::Tolerated(error(OpKind::Hostname, "guest", None, 1)));
    assert!(s.finished());
    assert_eq!(s.pending(), None);
}

#[test]
fn nothing_revives_a_halted_sequencer() {
    let (mut s, _) = advance_to(sequencer(), 1).record(StepOutcome::Failed { errno: 22 });
    let failure = s.failure().cloned();
    assert_eq!(failure, Some(error(OpKind::Mount, "/dev", Some("devtmpfs"), 22)));
    for outcome in [StepOutcome::Done, StepOutcome::Failed { errno: 1 }, StepOutcome::Done] {
        let (next, progress) = s.record(outcome);
        assert_eq!(progress, Progress::Idle);
        s = next;
        assert_eq!(s.pending(), None);
        assert_eq!(s.failure().cloned(), failure);
        assert_eq!(s.completed(), 1);
        assert!(!s.finished());
    }
}

#[test]
fn outcome_after_the_last_step_is_dropped() {
    let s = advance_to(sequencer(), 61);
    assert!(s.finished());
    let (s, progress) = s.record(StepOutcome::Failed { errno: 5 });
    assert_eq!(progress, Progress::Idle);
    assert!(s.finished());
    assert!(s.failure().is_none());
    assert_eq!(s.completed(), 61);
}

#[test]
fn classify_names_operation_and_paths() {
    assert_eq!(
        classify(&Step::make_dir("/a", 0o755, false), 17),
        error(OpKind::CreateDirectory, "/a", None, 17)
    );
    assert_eq!(
        classify(&Step::mount("proc", "/proc", Some("proc"), MountFlags::restrictive(), None), 16),
        error(OpKind::Mount, "/proc", Some("proc"), 16)
    );
    assert_eq!(
        classify(&Step::change_dir("/newroot"), 20),
        error(OpKind::ChangeDirectory, "/newroot", None, 20)
    );
    assert_eq!(classify(&Step::change_root("."), 1), error(OpKind::ChangeRoot, ".", None, 1));
    assert_eq!(
        classify(&Step::symlink("/proc/self/fd/0", "/dev/stdin"), 17),
        error(OpKind::Symlink, "/dev/stdin", Some("/proc/self/fd/0"), 17)
    );
    assert_eq!(
        classify(&Step::raise_fd_limit(10240), 22),
        error(OpKind::ResourceLimit, "nofile", None, 22)
    );
    assert_eq!(
        classify(&Step::write_file("/etc/hosts", Vec::new()), 30),
        error(OpKind::WriteFile, "/etc/hosts", None, 30)
    );
    assert_eq!(
        classify(&Step::set_hostname("guest"), 36),
        error(OpKind::Hostname, "guest", None, 36)
    );
}

#[test]
fn post_switch_mount_is_pending_only_after_the_whole_switch() {
    let mut s = sequencer();
    let mut done: Vec<Step> = Vec::new();
    while let Some(step) = s.pending() {
        if let Operation::Mount(m) = &step.op {
            if !["/dev", "/newroot", "/newroot/dev", "/"].contains(&m.target.as_str()) {
                let switched = done.windows(4).any(|w| {
                    w[0] == Step::change_dir("/newroot")
                        && w[1] == Step::mount(".", "/", None, MountFlags::moving(), None)
                        && w[2] == Step::change_root(".")
                        && w[3] == Step::change_dir("/")
                });
                assert!(switched, "{} is mounted before the root switch", m.target);
            }
        }
        done.push(step.clone());
        s = s.record(StepOutcome::Done).0;
    }
    assert_eq!(done.len(), 61);
}
