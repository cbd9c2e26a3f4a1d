use guest_init::bootstrap::BootPlan;
use guest_init::plan::{MountFlags, MountStep, Operation, Step};

fn steps_of(plan: &BootPlan) -> Vec<Step> {
    (0..plan.len()).map(|i| plan.get(i).expect("within the plan").clone()).collect()
}

fn bare() -> Vec<Step> {
    steps_of(&BootPlan::new(Vec::new(), "guest"))
}

fn mounts(steps: &[Step]) -> Vec<(usize, MountStep)> {
    let mut found = Vec::new();
    for (i, step) in steps.iter().enumerate() {
        if let Operation::Mount(m) = &step.op {
            found.push((i, m.clone()));
        }
    }
    found
}

fn mount_on(steps: &[Step], target: &str) -> (usize, MountStep) {
    mounts(steps).into_iter().find(|(_, m)| m.target == target).expect("a mount on the target")
}

fn names_device_tree(op: &Operation) -> bool {
    let below = |p: &str| p.starts_with("/dev/");
    match op {
        Operation::MakeDir { path, .. } => below(path),
        Operation::Mount(m) => below(&m.source) || below(&m.target) || m.source == "/dev",
        Operation::ChangeDir { path } => below(path),
        Operation::ChangeRoot { path } => below(path),
        Operation::Symlink { link, .. } => below(link),
        Operation::RaiseFdLimit { .. } => false,
        Operation::WriteFile { path, .. } => below(path),
        Operation::SetHostname { .. } => false,
    }
}

fn flags(nodev: bool, noexec: bool, nosuid: bool, noatime: bool, relatime: bool) -> MountFlags {
    MountFlags { nodev, noexec, nosuid, noatime, relatime, move_mount: false }
}

#[test]
fn bare_plan_has_sixty_one_steps() {
    assert_eq!(bare().len(), 61);
}

#[test]
fn get_past_the_end_gives_nothing() {
    let plan = BootPlan::new(Vec::new(), "guest");
    assert!(plan.get(plan.len()).is_none());
    assert!(plan.get(plan.len() - 1).is_some());
}

#[test]
fn plan_begins_with_the_device_tree() {
    let steps = bare();
    assert_eq!(steps[0], Step::make_dir("/dev", 0o700, true));
    assert_eq!(
        steps[1],
        Step::mount("devtmpfs", "/dev", Some("devtmpfs"), MountFlags::none(), None)
    );
    assert!(steps[0].required);
    assert!(steps[1].required);
}

#[test]
fn root_device_is_mounted_on_newroot_as_ext4() {
    let steps = bare();
    assert_eq!(steps[2], Step::make_dir("/newroot", 0o700, true));
    assert_eq!(
        steps[3],
        Step::mount("/dev/vdb", "/newroot", Some("ext4"), MountFlags::none(), None)
    );
}

#[test]
fn device_tree_is_moved_not_mounted_twice() {
    let steps = bare();
    assert_eq!(steps[4], Step::make_dir("/newroot/dev", 0o700, false));
    assert_eq!(steps[5], Step::mount("/dev", "/newroot/dev", None, MountFlags::moving(), None));
    let device_mounts = mounts(&steps)
        .into_iter()
        .filter(|(_, m)| m.fstype.as_deref() == Some("devtmpfs"))
        .count();
    assert_eq!(device_mounts, 1);
}

#[test]
fn root_switch_is_four_steps_in_a_row() {
    let steps = bare();
    assert_eq!(steps[6], Step::change_dir("/newroot"));
    assert_eq!(steps[7], Step::mount(".", "/", None, MountFlags::moving(), None));
    assert_eq!(steps[8], Step::change_root("."));
    assert_eq!(steps[9], Step::change_dir("/"));
    for step in &steps[6..10] {
        assert!(step.required);
    }
    let roots = steps.iter().filter(|s| matches!(s.op, Operation::ChangeRoot { .. })).count();
    assert_eq!(roots, 1);
}

#[test]
fn device_tree_is_mounted_before_anything_uses_it() {
    let steps = bare();
    let (mounted, _) = mount_on(&steps, "/dev");
    let mut users = 0;
    for (i, step) in steps.iter().enumerate() {
        if names_device_tree(&step.op) {
            users += 1;
            assert!(mounted < i, "step {} uses /dev before it is mounted", i);
        }
    }
    assert_eq!(users, 14);
}

#[test]
fn every_mount_follows_the_creation_of_its_target() {
    let steps = bare();
    for (i, m) in mounts(&steps) {
        if m.target == "/" {
            continue;
        }
        let made = steps[..i]
            .iter()
            .any(|s| matches!(&s.op, Operation::MakeDir { path, .. } if *path == m.target));
        assert!(made, "nothing creates {} before it is mounted on", m.target);
    }
}

#[test]
fn only_staging_mounts_come_before_the_root_switch() {
    let steps = bare();
    for (i, m) in mounts(&steps) {
        if i < 6 {
            assert!(["/dev", "/newroot", "/newroot/dev"].contains(&m.target.as_str()));
        } else if i != 7 {
            assert!(i > 9);
            assert!(!m.target.starts_with("/newroot"));
        }
    }
}

#[test]
fn pseudo_terminals_are_mounted_with_fixed_options() {
    let steps = bare();
    let (i, m) = mount_on(&steps, "/dev/pts");
    assert_eq!(steps[i - 1], Step::make_dir("/dev/pts", 0o755, false));
    assert_eq!(m.source, "devpts");
    assert_eq!(m.fstype.as_deref(), Some("devpts"));
    assert_eq!(m.flags, flags(false, true, true, true, false));
    assert_eq!(m.options.as_deref(), Some("mode=0620,gid=5,ptmxmode=666"));
}

#[test]
fn message_queues_get_the_restrictive_flags() {
    let steps = bare();
    let (i, m) = mount_on(&steps, "/dev/mqueue");
    assert_eq!(steps[i - 1], Step::make_dir("/dev/mqueue", 0o755, false));
    assert_eq!(m.fstype.as_deref(), Some("mqueue"));
    assert_eq!(m.flags, flags(true, true, true, false, false));
    assert_eq!(m.flags, MountFlags::restrictive());
    assert_eq!(m.options, None);
}

#[test]
fn shared_memory_is_a_sticky_world_writable_tmpfs() {
    let steps = bare();
    let (i, m) = mount_on(&steps, "/dev/shm");
    assert_eq!(steps[i - 1], Step::make_dir("/dev/shm", 0o1777, false));
    assert_eq!(m.source, "shm");
    assert_eq!(m.fstype.as_deref(), Some("tmpfs"));
    assert_eq!(m.flags, flags(true, false, true, false, false));
    assert_eq!(m.flags, MountFlags::scratch());
}

#[test]
fn huge_pages_have_a_fixed_page_size() {
    let steps = bare();
    let (i, m) = mount_on(&steps, "/dev/hugepages");
    assert_eq!(steps[i - 1], Step::make_dir("/dev/hugepages", 0o755, false));
    assert_eq!(m.fstype.as_deref(), Some("hugetlbfs"));
    assert_eq!(m.flags, flags(false, false, false, false, true));
    assert_eq!(m.options.as_deref(), Some("pagesize=2M"));
}

#[test]
fn proc_sys_and_run_are_mounted_in_that_order() {
    let steps = bare();
    let (proc_at, proc_mount) = mount_on(&steps, "/proc");
    let (sys_at, sys_mount) = mount_on(&steps, "/sys");
    let (run_at, run_mount) = mount_on(&steps, "/run");
    let (binfmt_at, binfmt_mount) = mount_on(&steps, "/proc/sys/fs/binfmt_misc");
    assert!(proc_at < sys_at && sys_at < run_at && run_at < binfmt_at);
    assert_eq!(proc_mount.fstype.as_deref(), Some("proc"));
    assert_eq!(proc_mount.flags, MountFlags::restrictive());
    assert_eq!(sys_mount.fstype.as_deref(), Some("sysfs"));
    assert_eq!(sys_mount.flags, MountFlags::restrictive());
    assert_eq!(run_mount.fstype.as_deref(), Some("tmpfs"));
    assert_eq!(run_mount.flags, MountFlags::scratch());
    assert_eq!(run_mount.options.as_deref(), Some("mode=0755"));
    assert_eq!(binfmt_mount.fstype.as_deref(), Some("binfmt_misc"));
    assert_eq!(binfmt_mount.flags, flags(true, true, true, false, true));
    assert_eq!(steps[run_at + 1], Step::make_dir("/run/lock", 0o7777, false));
}

#[test]
fn standard_streams_are_linked_under_dev() {
    let steps = bare();
    let links: Vec<Step> =
        steps.iter().filter(|s| matches!(s.op, Operation::Symlink { .. })).cloned().collect();
    assert_eq!(
        links,
        vec![
            Step::symlink("/proc/self/fd", "/dev/fd"),
            Step::symlink("/proc/self/fd/0", "/dev/stdin"),
            Step::symlink("/proc/self/fd/1", "/dev/stdout"),
            Step::symlink("/proc/self/fd/2", "/dev/stderr"),
        ]
    );
    assert!(links.iter().all(|s| !s.required));
}

#[test]
fn home_and_descriptor_limit_follow_the_links() {
    let steps = bare();
    assert_eq!(steps[31], Step::make_dir("/root", 0o700, false));
    assert_eq!(steps[32], Step::raise_fd_limit(10240));
    assert_eq!(
        steps[32],
        Step { op: Operation::RaiseFdLimit { limit: 10240 }, required: false }
    );
}

#[test]
fn cgroup_root_is_a_tmpfs_with_the_unified_hierarchy_below() {
    let steps = bare();
    assert_eq!(steps[33], Step::make_dir("/sys/fs/cgroup", 0o755, false));
    assert_eq!(
        steps[34],
        Step::mount(
            "tmpfs",
            "/sys/fs/cgroup",
            Some("tmpfs"),
            MountFlags::restrictive().with_relatime(),
            Some("mode=755")
        )
    );
    assert_eq!(steps[35], Step::make_dir("/sys/fs/cgroup/unified", 0o755, false));
    assert_eq!(
        steps[36],
        Step::mount(
            "cgroup2",
            "/sys/fs/cgroup/unified",
            Some("cgroup2"),
            MountFlags::restrictive().with_relatime(),
            Some("nsdelegate")
        )
    );
}

#[test]
fn each_legacy_controller_gets_its_own_hierarchy() {
    let steps = bare();
    let names = [
        "net_cls,net_prio",
        "hugetlb",
        "pids",
        "freezer",
        "cpu,cpuacct",
        "devices",
        "blkio",
        "memory",
        "perf_event",
        "cpuset",
    ];
    let shared = flags(true, true, true, false, true);
    for (k, name) in names.iter().enumerate() {
        let dir = format!("/sys/fs/cgroup/{}", name);
        assert_eq!(steps[37 + 2 * k], Step::make_dir(&dir, 0o755, false));
        assert_eq!(
            steps[38 + 2 * k],
            Step::mount("cgroup", &dir, Some("cgroup"), shared, Some(name))
        );
    }
    let legacy =
        mounts(&steps).into_iter().filter(|(_, m)| m.fstype.as_deref() == Some("cgroup")).count();
    assert_eq!(legacy, 10);
}

#[test]
fn identity_ends_the_plan() {
    let steps = bare();
    assert_eq!(steps[57], Step::make_dir("/etc", 0o700, false));
    assert_eq!(
        steps[58],
        Step::write_file("/etc/resolv.conf", b"nameserver 8.8.8.8\n".to_vec())
    );
    assert_eq!(steps[59], Step::write_file("/etc/hosts", b"127.0.0.1 localhost\n".to_vec()));
    assert_eq!(steps[60], Step::set_hostname("guest"));
    assert!(steps[58].required && steps[59].required);
    assert!(!steps[57].required && !steps[60].required);
}

#[test]
fn flag_sets_hold_what_their_names_say() {
    assert_eq!(MountFlags::none(), flags(false, false, false, false, false));
    assert_eq!(
        MountFlags::moving(),
        MountFlags { move_mount: true, ..flags(false, false, false, false, false) }
    );
    assert_eq!(MountFlags::restrictive(), flags(true, true, true, false, false));
    assert_eq!(MountFlags::scratch(), flags(true, false, true, false, false));
    assert_eq!(MountFlags::terminal(), flags(false, true, true, true, false));
    assert_eq!(MountFlags::terminal().with_relatime(), flags(false, true, true, true, true));
}

#[test]
fn nothing_but_the_root_device_can_execute_after_the_switch() {
    let steps = bare();
    for (i, m) in mounts(&steps) {
        if i > 9 {
            let memory_backed = m.target == "/dev/shm" || m.target == "/run";
            let huge = m.target == "/dev/hugepages";
            assert!(m.flags.noexec || memory_backed || huge, "{} allows execution", m.target);
        }
    }
}

#[test]
fn nothing_is_put_into_a_directory_before_it_is_mounted_on() {
    let steps = bare();
    let paths = |op: &Operation| -> Vec<String> {
        match op {
            Operation::MakeDir { path, .. } => vec![path.clone()],
            Operation::Mount(m) => vec![m.target.clone()],
            Operation::ChangeDir { path } => vec![path.clone()],
            Operation::ChangeRoot { path } => vec![path.clone()],
            Operation::Symlink { link, .. } => vec![link.clone()],
            Operation::WriteFile { path, .. } => vec![path.clone()],
            Operation::RaiseFdLimit { .. } | Operation::SetHostname { .. } => Vec::new(),
        }
    };
    for (j, m) in mounts(&steps) {
        if m.target == "/" {
            continue;
        }
        let inside = format!("{}/", m.target);
        for earlier in &steps[..j] {
            for path in paths(&earlier.op) {
                assert!(!path.starts_with(&inside), "{} is hidden by {}", path, m.target);
            }
        }
    }
}

#[test]
fn every_cgroup_mount_shares_one_flag_set() {
    let steps = bare();
    let shared = flags(true, true, true, false, true);
    let below: Vec<MountStep> = mounts(&steps)
        .into_iter()
        .map(|(_, m)| m)
        .filter(|m| m.target.starts_with("/sys/fs/cgroup"))
        .collect();
    assert_eq!(below.len(), 12);
    assert!(below.iter().all(|m| m.flags == shared));
}
