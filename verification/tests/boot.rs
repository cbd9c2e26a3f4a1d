use guest_init::boot::{Directive, Init};
use guest_init::bootstrap::BootPlan;
use guest_init::config::{FileEntry, GuestConfig};
use guest_init::error::{Cause, InitError, OpKind};
use guest_init::net::{Link, NetAction, NetReply};
use guest_init::plan::{MountFlags, Operation, Step};
use guest_init::sequencer::{Progress, StepOutcome};

/// What a run has been told to do, in order.
#[derive(Debug, Clone, PartialEq)]
enum Told {
    Perform(Step),
    Configure(NetAction),
    Serve,
    Halt(InitError),
}

fn told(init: &Init) -> Told {
    match init.directive() {
        Directive::Perform(step) => Told::Perform(step.clone()),
        Directive::Configure(action) => Told::Configure(action),
        Directive::Serve => Told::Serve,
        Directive::Halt(e) => Told::Halt(e.clone()),
    }
}

fn fresh() -> Init {
    Init::new(BootPlan::new(Vec::new(), "guest"))
}

fn bootstrapped() -> Init {
    let mut init = fresh();
    while let Told::Perform(_) = told(&init) {
        init = init.step_done(StepOutcome::Done).0;
    }
    init
}

fn answer(action: NetAction) -> NetReply {
    match action {
        NetAction::ResolveLink { link: Link::Loopback } => NetReply::Link { index: 1 },
        NetAction::ResolveLink { link: Link::Primary } => NetReply::Link { index: 2 },
        _ => NetReply::Done,
    }
}

fn at_primary_lookup() -> Init {
    let mut init = bootstrapped();
    loop {
        match told(&init) {
            Told::Configure(NetAction::ResolveLink { link: Link::Primary }) => return init,
            Told::Configure(action) => init = init.replied(answer(action)),
            other => panic!("unexpected directive {:?}", other),
        }
    }
}

#[test]
fn start_up_goes_from_the_first_step_to_serving() {
    let mut init = fresh();
    let mut log = Vec::new();
    loop {
        let directive = told(&init);
        log.push(directive.clone());
        match directive {
            Told::Perform(_) => init = init.step_done(StepOutcome::Done).0,
            Told::Configure(action) => init = init.replied(answer(action)),
            Told::Serve | Told::Halt(_) => break,
        }
    }
    assert_eq!(log.len(), 61 + 7 + 1);
    assert!(log[..61].iter().all(|d| matches!(d, Told::Perform(_))));
    assert!(log[61..68].iter().all(|d| matches!(d, Told::Configure(_))));
    assert_eq!(log[0], Told::Perform(Step::make_dir("/dev", 0o700, true)));
    assert_eq!(log[61], Told::Configure(NetAction::OpenChannel));
    assert_eq!(log[68], Told::Serve);
}

#[test]
fn guest_files_are_written_before_the_network_is_touched() {
    let config = GuestConfig {
        files: vec![FileEntry {
            guest_path: "/etc/app.toml".to_string(),
            raw_value: "a2V5ID0gMQo=".to_string(),
        }],
        hostname: Some("app-1".to_string()),
    };
    let mut init = Init::new(BootPlan::for_guest(config).unwrap());
    let mut performed = Vec::new();
    while let Told::Perform(step) = told(&init) {
        performed.push(step);
        init = init.step_done(StepOutcome::Done).0;
    }
    assert_eq!(told(&init), Told::Configure(NetAction::OpenChannel));
    assert!(performed.contains(&Step::write_file("/etc/app.toml", b"key = 1\n".to_vec())));
    assert_eq!(performed.last(), Some(&Step::set_hostname("app-1")));
}

#[test]
fn failed_required_step_halts_start_up() {
    let mut init = fresh();
    init = init.step_done(StepOutcome::Done).0;
    let (init, progress) = init.step_done(StepOutcome::Failed { errno: 19 });
    assert_eq!(progress, Progress::Halted);
    let expected = InitError {
        kind: OpKind::Mount,
        subject: "/dev".to_string(),
        origin: Some("devtmpfs".to_string()),
        cause: Cause::Errno(19),
    };
    assert_eq!(told(&init), Told::Halt(expected.clone()));
    let init = init.step_done(StepOutcome::Done).0;
    let init = init.replied(NetReply::Done);
    assert_eq!(told(&init), Told::Halt(expected));
}

#[test]
fn tolerated_failure_does_not_halt_start_up() {
    let mut init = fresh();
    for _ in 0..4 {
        init = init.step_done(StepOutcome::Done).0;
    }
    let (init, progress) = init.step_done(StepOutcome::Failed { errno: 17 });
    assert!(matches!(progress, Progress::Tolerated(_)));
    assert_eq!(
        told(&init),
        Told::Perform(Step::mount("/dev", "/newroot/dev", None, MountFlags::moving(), None))
    );
}

#[test]
fn unresolved_primary_interface_never_leads_to_serving() {
    let init = at_primary_lookup().replied(NetReply::Missing);
    let expected = Told::Halt(InitError {
        kind: OpKind::NetworkConfigure,
        subject: "eth0".to_string(),
        origin: None,
        cause: Cause::NotFound,
    });
    assert_eq!(told(&init), expected);
    let mut init = init;
    for round in 0..20 {
        init = match round % 4 {
            0 => init.replied(NetReply::Link { index: 2 }),
            1 => init.replied(NetReply::Done),
            2 => init.step_done(StepOutcome::Done).0,
            _ => init.step_done(StepOutcome::Failed { errno: 1 }).0,
        };
        assert_eq!(told(&init), expected);
    }
}

#[test]
fn failed_lookup_of_the_primary_interface_never_leads_to_serving() {
    let mut init = at_primary_lookup().replied(NetReply::Failed(Cause::Errno(19)));
    for _ in 0..10 {
        assert!(matches!(told(&init), Told::Halt(_)));
        init = init.replied(NetReply::Done);
    }
}

#[test]
fn replies_of_the_network_are_dropped_during_the_bootstrap() {
    let mut init = fresh();
    for reply in [NetReply::Done, NetReply::Link { index: 1 }, NetReply::Missing] {
        init = init.replied(reply);
        assert_eq!(told(&init), Told::Perform(Step::make_dir("/dev", 0o700, true)));
    }
    let init = bootstrapped();
    assert_eq!(told(&init), Told::Configure(NetAction::OpenChannel));
}

#[test]
fn outcomes_of_steps_are_dropped_after_the_bootstrap() {
    let init = bootstrapped();
    let (init, progress) = init.step_done(StepOutcome::Failed { errno: 5 });
    assert_eq!(progress, Progress::Idle);
    assert_eq!(told(&init), Told::Configure(NetAction::OpenChannel));
}

#[test]
fn serving_is_never_reached_before_the_network_is_ready() {
    let mut init = bootstrapped();
    let mut configured = 0;
    while let Told::Configure(action) = told(&init) {
        configured += 1;
        init = init.replied(answer(action));
    }
    assert_eq!(configured, 7);
    assert_eq!(told(&init), Told::Serve);
    let init = init.replied(NetReply::Failed(Cause::Errno(1)));
    assert_eq!(told(&init), Told::Serve);
}

#[test]
fn every_step_is_performed_once() {
    let mut init = fresh();
    let mut mounts = 0;
    let mut total = 0;
    while let Told::Perform(step) = told(&init) {
        total += 1;
        if matches!(step.op, Operation::Mount(_)) {
            mounts += 1;
        }
        init = init.step_done(StepOutcome::Done).0;
    }
    assert_eq!(total, 61);
    assert_eq!(mounts, 24);
}
