//! The bootstrap plan: what turns the initial ramdisk into the guest's root.
//!
//! The plan is fixed but for the files and the host name that the guest
//! configuration supplies. It is stated once as a sequence of step views,
//! phase by phase, and built by executable code that is proved to produce
//! exactly that sequence. The plan is proved to keep the order that
//! [`crate::order`] asks for.

use vstd::prelude::*;
use vstd::string::StrSliceExecFns;
use vstd::string::StringExecFns;
use vstd::string::StringSliceAdditionalSpecFns;

use crate::config::{
    decode_files, decoded_files, decoding, files_view, GuestConfig, GuestConfigView, GuestFile,
    GuestFileView,
};
use crate::error::{InitError, InitErrorView};
use crate::order::{
    admits, device_tree_mount, device_tree_move, directory_made, enter_new_root, enter_root,
    leave_old_root, lemma_extend, lemma_mount_point_self_contained, lemma_self_contained_concat,
    makes, moves_onto_root, pivot, root_device_mount, root_switch, self_contained, settled,
    switch_at, under_dev, well_ordered,
};
use crate::plan::{
    make_dir, mount, raise_fd_limit, set_hostname, steps_view, symlink, write_file, MountFlags,
    Operation, OperationView, Step, StepView,
};
use crate::text::opt_str;

verus! {

/// Permission bits: all for the owner, none for anyone else.
pub const OWNER_ONLY: u32 = 0o700;

/// Permission bits: all for the owner, read and search for the others.
pub const WORLD_READABLE: u32 = 0o755;

/// Permission bits: all for everyone, with the sticky bit.
pub const WORLD_WRITABLE_STICKY: u32 = 0o1777;

/// Every permission bit there is.
pub const ALL_PERMISSIONS: u32 = 0o7777;

/// The ceiling on open file descriptors that the bootstrap asks for.
pub const FD_LIMIT: u64 = 10240;

/// A directory and the mount on it: the directory is created first.
pub open spec fn mount_point(
    source: Seq<char>,
    target: Seq<char>,
    mode: u32,
    required: bool,
    fstype: Option<Seq<char>>,
    flags: MountFlags,
    options: Option<Seq<char>>,
) -> Seq<StepView> {
    seq![make_dir(target, mode, required), mount(source, target, fstype, flags, options)]
}

/// Before the root switch: the device tree, the root device on `/newroot`,
/// and the device tree moved into it.
pub open spec fn staging() -> Seq<StepView> {
    seq![
        make_dir("/dev"@, OWNER_ONLY, true),
        device_tree_mount(),
        make_dir("/newroot"@, OWNER_ONLY, true),
        root_device_mount(),
        make_dir("/newroot/dev"@, OWNER_ONLY, false),
        device_tree_move(),
    ]
}

/// The pseudo-filesystems of the guest's root, mounted after the switch.
pub open spec fn pseudo_filesystems() -> Seq<StepView> {
    mount_point(
        "devpts"@,
        "/dev/pts"@,
        WORLD_READABLE,
        false,
        Some("devpts"@),
        MountFlags::terminal(),
        Some("mode=0620,gid=5,ptmxmode=666"@),
    ) + mount_point(
        "mqueue"@,
        "/dev/mqueue"@,
        WORLD_READABLE,
        false,
        Some("mqueue"@),
        MountFlags::restrictive(),
        None,
    ) + mount_point(
        "shm"@,
        "/dev/shm"@,
        WORLD_WRITABLE_STICKY,
        false,
        Some("tmpfs"@),
        MountFlags::scratch(),
        None,
    ) + mount_point(
        "hugetlbfs"@,
        "/dev/hugepages"@,
        WORLD_READABLE,
        false,
        Some("hugetlbfs"@),
        MountFlags::none().with_relatime(),
        Some("pagesize=2M"@),
    ) + mount_point(
        "proc"@,
        "/proc"@,
        OWNER_ONLY,
        false,
        Some("proc"@),
        MountFlags::restrictive(),
        None,
    ) + mount_point(
        "sys"@,
        "/sys"@,
        OWNER_ONLY,
        false,
        Some("sysfs"@),
        MountFlags::restrictive(),
        None,
    ) + mount_point(
        "run"@,
        "/run"@,
        OWNER_ONLY,
        false,
        Some("tmpfs"@),
        MountFlags::scratch(),
        Some("mode=0755"@),
    ) + seq![make_dir("/run/lock"@, ALL_PERMISSIONS, false)] + mount_point(
        "binfmt_misc"@,
        "/proc/sys/fs/binfmt_misc"@,
        OWNER_ONLY,
        false,
        Some("binfmt_misc"@),
        MountFlags::restrictive().with_relatime(),
        None,
    )
}

/// The links for the standard streams, the home of the superuser, and the
/// limit on open file descriptors. None of them is required.
pub open spec fn conveniences() -> Seq<StepView> {
    seq![
        symlink("/proc/self/fd"@, "/dev/fd"@),
        symlink("/proc/self/fd/0"@, "/dev/stdin"@),
        symlink("/proc/self/fd/1"@, "/dev/stdout"@),
        symlink("/proc/self/fd/2"@, "/dev/stderr"@),
        make_dir("/root"@, OWNER_ONLY, false),
        raise_fd_limit(FD_LIMIT),
    ]
}

/// The flag set that every mount of the cgroup hierarchy shares.
pub open spec fn cgroup_flags() -> MountFlags {
    MountFlags::restrictive().with_relatime()
}

/// The root of the cgroup hierarchy and the unified hierarchy below it.
pub open spec fn cgroup_root() -> Seq<StepView> {
    mount_point(
        "tmpfs"@,
        "/sys/fs/cgroup"@,
        WORLD_READABLE,
        false,
        Some("tmpfs"@),
        cgroup_flags(),
        Some("mode=755"@),
    ) + mount_point(
        "cgroup2"@,
        "/sys/fs/cgroup/unified"@,
        WORLD_READABLE,
        false,
        Some("cgroup2"@),
        cgroup_flags(),
        Some("nsdelegate"@),
    )
}

/// The legacy controllers, each of which gets a hierarchy of its own.
pub open spec fn legacy_controllers() -> Seq<Seq<char>> {
    seq![
        "net_cls,net_prio"@,
        "hugetlb"@,
        "pids"@,
        "freezer"@,
        "cpu,cpuacct"@,
        "devices"@,
        "blkio"@,
        "memory"@,
        "perf_event"@,
        "cpuset"@,
    ]
}

/// The directory of a legacy controller and the mount on it, scoped to that
/// controller by its options.
pub open spec fn controller_mount(name: Seq<char>) -> Seq<StepView> {
    mount_point(
        "cgroup"@,
        "/sys/fs/cgroup/"@ + name,
        WORLD_READABLE,
        false,
        Some("cgroup"@),
        cgroup_flags(),
        Some(name),
    )
}

/// The mounts of the given controllers, in order.
pub open spec fn controller_mounts(names: Seq<Seq<char>>) -> Seq<StepView>
    decreases names.len(),
{
    if names.len() == 0 {
        Seq::empty()
    } else {
        controller_mounts(names.drop_last()) + controller_mount(names.last())
    }
}

/// The whole cgroup hierarchy.
pub open spec fn cgroup_hierarchy() -> Seq<StepView> {
    cgroup_root() + controller_mounts(legacy_controllers())
}

/// The fixed part of the plan, from the first directory to the last cgroup.
pub open spec fn bootstrap_steps() -> Seq<StepView> {
    staging() + root_switch() + pseudo_filesystems() + conveniences() + cgroup_hierarchy()
}

/// One required write for each file, in the order of the files.
pub open spec fn file_writes(files: Seq<GuestFileView>) -> Seq<StepView> {
    Seq::new(files.len(), |i: int| write_file(files[i].path, files[i].contents))
}

/// What the resolver configuration holds.
pub const RESOLVER_TEXT: &'static str = "nameserver 8.8.8.8\n";

/// What the hosts file holds.
pub const HOSTS_TEXT: &'static str = "127.0.0.1 localhost\n";

/// The resolver configuration, the hosts file and the host name.
pub open spec fn identity(hostname: Seq<char>) -> Seq<StepView> {
    seq![
        make_dir("/etc"@, OWNER_ONLY, false),
        write_file("/etc/resolv.conf"@, RESOLVER_TEXT.spec_bytes()),
        write_file("/etc/hosts"@, HOSTS_TEXT.spec_bytes()),
        set_hostname(hostname),
    ]
}

/// The part of the plan that the guest configuration shapes: its files, then
/// the guest's identity on the network.
pub open spec fn guest_steps(files: Seq<GuestFileView>, hostname: Seq<char>) -> Seq<StepView> {
    file_writes(files) + identity(hostname)
}

/// The whole plan for a guest with the given files and host name.
pub open spec fn plan_for(files: Seq<GuestFileView>, hostname: Seq<char>) -> Seq<StepView> {
    bootstrap_steps() + guest_steps(files, hostname)
}

/// What the order of the first steps rests on: the device tree is not below
/// itself, what is mounted on it is no path, and the new root is not the
/// root.
proof fn lemma_staging_paths()
    ensures
        !under_dev("/dev"@),
        !under_dev("devtmpfs"@),
        "devtmpfs"@ != "/dev"@,
        "/newroot"@ != "/"@,
        "/newroot/dev"@ != "/"@,
{
    reveal_strlit("/dev");
    reveal_strlit("/dev/");
    reveal_strlit("devtmpfs");
    reveal_strlit("/newroot");
    reveal_strlit("/newroot/dev");
    reveal_strlit("/");
    assert("devtmpfs"@[0] == 'd');
    assert("/dev/"@[0] == '/');
    assert("devtmpfs"@.len() != "/dev"@.len());
    assert("/newroot"@.len() != "/"@.len());
    assert("/newroot/dev"@.len() != "/"@.len());
}

/// The steps up to the end of the root switch keep the order, and leave the
/// plan settled.
pub proof fn lemma_staging_and_switch()
    ensures
        well_ordered(staging() + root_switch()),
        settled(staging() + root_switch()),
{
    lemma_staging_paths();
    let p = staging() + root_switch();
    assert(p.len() == 10);
    assert(p[1] == device_tree_mount());
    assert(p[6] == enter_new_root());
    assert(p[7] == pivot());
    assert(p[8] == leave_old_root());
    assert(p[9] == enter_root());
    assert(switch_at(p, 6));
    assert forall|i: int| 0 <= i < p.len() implies admits(#[trigger] p.take(i), p[i]) by {
        let done = p.take(i);
        if i >= 2 {
            assert(done[1] == device_tree_mount());
        }
        if i == 1 {
            assert(makes(done[0], "/dev"@));
        } else if i == 3 {
            assert(makes(done[2], "/newroot"@));
        } else if i == 5 {
            assert(makes(done[4], "/newroot/dev"@));
        } else if i == 7 {
            assert(done[3] == root_device_mount());
            assert(done[5] == device_tree_move());
            assert(done.last() == done[6]);
        } else if i == 8 {
            assert(done.last() == done[7]);
        } else if i == 9 {
            assert(done.last() == done[8]);
        }
    }
}

/// The pseudo-filesystems bring their own directories.
pub proof fn lemma_pseudo_filesystems()
    ensures
        self_contained(pseudo_filesystems()),
{
    let p = pseudo_filesystems();
    assert forall|j: int| 0 <= j < p.len() implies match (#[trigger] p[j]).op {
        OperationView::Mount(m) => !moves_onto_root(m) && directory_made(p.take(j), m.target),
        OperationView::ChangeRoot { .. } => false,
        _ => true,
    } by {
        if j > 0 {
            assert(p.take(j)[j - 1] == p[j - 1]);
        }
    }
}

/// The links, the home directory and the descriptor limit depend on nothing.
pub proof fn lemma_conveniences()
    ensures
        self_contained(conveniences()),
{
}

/// The mounts of any controllers bring their own directories.
pub proof fn lemma_controller_mounts(names: Seq<Seq<char>>)
    ensures
        self_contained(controller_mounts(names)),
    decreases names.len(),
{
    if names.len() > 0 {
        lemma_controller_mounts(names.drop_last());
        let last = controller_mount(names.last());
        lemma_mount_point_self_contained(last[0], last[1]);
        lemma_self_contained_concat(controller_mounts(names.drop_last()), last);
    }
}

/// The cgroup hierarchy brings its own directories.
pub proof fn lemma_cgroup_hierarchy()
    ensures
        self_contained(cgroup_hierarchy()),
{
    let p = cgroup_root();
    assert forall|j: int| 0 <= j < p.len() implies match (#[trigger] p[j]).op {
        OperationView::Mount(m) => !moves_onto_root(m) && directory_made(p.take(j), m.target),
        OperationView::ChangeRoot { .. } => false,
        _ => true,
    } by {
        if j > 0 {
            assert(p.take(j)[j - 1] == p[j - 1]);
        }
    }
    lemma_controller_mounts(legacy_controllers());
    lemma_self_contained_concat(cgroup_root(), controller_mounts(legacy_controllers()));
}

/// True if every mount among `steps` has the flag set of the cgroup
/// hierarchy.
pub open spec fn shares_cgroup_flags(steps: Seq<StepView>) -> bool {
    forall|i: int|
        0 <= i < steps.len() && (#[trigger] steps[i]).op is Mount ==> steps[i].op->Mount_0.flags
            == cgroup_flags()
}

/// Every mount of the cgroup hierarchy has the same flag set: no device
/// nodes, no execution, no set-uid, relative access times.
pub proof fn lemma_cgroup_flags_shared()
    ensures
        shares_cgroup_flags(cgroup_hierarchy()),
        cgroup_flags() == (MountFlags {
            nodev: true,
            noexec: true,
            nosuid: true,
            noatime: false,
            relatime: true,
            move_mount: false,
        }),
{
    lemma_controller_flags_shared(legacy_controllers());
}

/// The mounts of any controllers have the flag set of the cgroup hierarchy.
proof fn lemma_controller_flags_shared(names: Seq<Seq<char>>)
    ensures
        shares_cgroup_flags(controller_mounts(names)),
    decreases names.len(),
{
    if names.len() > 0 {
        lemma_controller_flags_shared(names.drop_last());
    }
}

/// What the guest configuration adds mounts nothing and leaves the root
/// alone.
pub proof fn lemma_guest_steps(files: Seq<GuestFileView>, hostname: Seq<char>)
    ensures
        self_contained(guest_steps(files, hostname)),
{
    lemma_self_contained_concat(file_writes(files), identity(hostname));
}

/// The fixed part of the plan keeps the order and leaves the plan settled.
pub proof fn lemma_bootstrap_steps()
    ensures
        well_ordered(bootstrap_steps()),
        settled(bootstrap_steps()),
{
    lemma_staging_and_switch();
    lemma_pseudo_filesystems();
    lemma_conveniences();
    lemma_cgroup_hierarchy();
    let first = staging() + root_switch();
    lemma_extend(first, pseudo_filesystems());
    lemma_extend(first + pseudo_filesystems(), conveniences());
    lemma_extend(first + pseudo_filesystems() + conveniences(), cgroup_hierarchy());
}

/// The plan of every guest keeps the order, whatever its files and its host
/// name.
pub proof fn lemma_plan_well_ordered(files: Seq<GuestFileView>, hostname: Seq<char>)
    ensures
        well_ordered(plan_for(files, hostname)),
{
    lemma_bootstrap_steps();
    lemma_guest_steps(files, hostname);
    lemma_extend(bootstrap_steps(), guest_steps(files, hostname));
}

/// Appending a step to a vector appends its view.
proof fn lemma_push_view(steps: Seq<Step>, step: Step)
    ensures
        steps_view(steps.push(step)) == steps_view(steps).push(step@),
{
    assert(steps_view(steps.push(step)) =~= steps_view(steps).push(step@));
}

fn push_step(steps: &mut Vec<Step>, step: Step)
    ensures
        steps_view(final(steps)@) == steps_view(old(steps)@).push(step@),
{
    proof {
        lemma_push_view(steps@, step);
    }
    steps.push(step);
}

fn push_mount_point(
    steps: &mut Vec<Step>,
    source: &str,
    target: &str,
    mode: u32,
    required: bool,
    fstype: Option<&str>,
    flags: MountFlags,
    options: Option<&str>,
)
    ensures
        steps_view(final(steps)@) == steps_view(old(steps)@) + mount_point(
            source@,
            target@,
            mode,
            required,
            opt_str(fstype),
            flags,
            opt_str(options),
        ),
{
    push_step(steps, Step::make_dir(target, mode, required));
    push_step(steps, Step::mount(source, target, fstype, flags, options));
    assert(steps_view(steps@) =~= steps_view(old(steps)@) + mount_point(
        source@,
        target@,
        mode,
        required,
        opt_str(fstype),
        flags,
        opt_str(options),
    ));
}

fn push_staging(steps: &mut Vec<Step>)
    ensures
        steps_view(final(steps)@) == steps_view(old(steps)@) + staging(),
{
    push_mount_point(
        steps,
        "devtmpfs",
        "/dev",
        OWNER_ONLY,
        true,
        Some("devtmpfs"),
        MountFlags::none(),
        None,
    );
    push_mount_point(
        steps,
        "/dev/vdb",
        "/newroot",
        OWNER_ONLY,
        true,
        Some("ext4"),
        MountFlags::none(),
        None,
    );
    push_mount_point(
        steps,
        "/dev",
        "/newroot/dev",
        OWNER_ONLY,
        false,
        None,
        MountFlags::moving(),
        None,
    );
    assert(steps_view(steps@) =~= steps_view(old(steps)@) + staging());
}

fn push_root_switch(steps: &mut Vec<Step>)
    ensures
        steps_view(final(steps)@) == steps_view(old(steps)@) + root_switch(),
{
    push_step(steps, Step::change_dir("/newroot"));
    push_step(steps, Step::mount(".", "/", None, MountFlags::moving(), None));
    push_step(steps, Step::change_root("."));
    push_step(steps, Step::change_dir("/"));
    assert(steps_view(steps@) =~= steps_view(old(steps)@) + root_switch());
}

fn push_pseudo_filesystems(steps: &mut Vec<Step>)
    ensures
        steps_view(final(steps)@) == steps_view(old(steps)@) + pseudo_filesystems(),
{
    push_mount_point(
        steps,
        "devpts",
        "/dev/pts",
        WORLD_READABLE,
        false,
        Some("devpts"),
        MountFlags::terminal(),
        Some("mode=0620,gid=5,ptmxmode=666"),
    );
    push_mount_point(
        steps,
        "mqueue",
        "/dev/mqueue",
        WORLD_READABLE,
        false,
        Some("mqueue"),
        MountFlags::restrictive(),
        None,
    );
    push_mount_point(
        steps,
        "shm",
        "/dev/shm",
        WORLD_WRITABLE_STICKY,
        false,
        Some("tmpfs"),
        MountFlags::scratch(),
        None,
    );
    push_mount_point(
        steps,
        "hugetlbfs",
        "/dev/hugepages",
        WORLD_READABLE,
        false,
        Some("hugetlbfs"),
        MountFlags::none().with_relatime(),
        Some("pagesize=2M"),
    );
    push_mount_point(
        steps,
        "proc",
        "/proc",
        OWNER_ONLY,
        false,
        Some("proc"),
        MountFlags::restrictive(),
        None,
    );
    push_mount_point(
        steps,
        "sys",
        "/sys",
        OWNER_ONLY,
        false,
        Some("sysfs"),
        MountFlags::restrictive(),
        None,
    );
    push_mount_point(
        steps,
        "run",
        "/run",
        OWNER_ONLY,
        false,
        Some("tmpfs"),
        MountFlags::scratch(),
        Some("mode=0755"),
    );
    push_step(steps, Step::make_dir("/run/lock", ALL_PERMISSIONS, false));
    push_mount_point(
        steps,
        "binfmt_misc",
        "/proc/sys/fs/binfmt_misc",
        OWNER_ONLY,
        false,
        Some("binfmt_misc"),
        MountFlags::restrictive().with_relatime(),
        None,
    );
    assert(steps_view(steps@) =~= steps_view(old(steps)@) + pseudo_filesystems());
}

fn push_conveniences(steps: &mut Vec<Step>)
    ensures
        steps_view(final(steps)@) == steps_view(old(steps)@) + conveniences(),
{
    push_step(steps, Step::symlink("/proc/self/fd", "/dev/fd"));
    push_step(steps, Step::symlink("/proc/self/fd/0", "/dev/stdin"));
    push_step(steps, Step::symlink("/proc/self/fd/1", "/dev/stdout"));
    push_step(steps, Step::symlink("/proc/self/fd/2", "/dev/stderr"));
    push_step(steps, Step::make_dir("/root", OWNER_ONLY, false));
    push_step(steps, Step::raise_fd_limit(FD_LIMIT));
    assert(steps_view(steps@) =~= steps_view(old(steps)@) + conveniences());
}

/// The names of the legacy controllers, in the order of their mounts.
fn controller_names() -> (names: Vec<&'static str>)
    ensures
        names@.len() == legacy_controllers().len(),
        forall|i: int| 0 <= i < names@.len() ==> (#[trigger] names@[i])@ == legacy_controllers()[i],
{
    vec![
        "net_cls,net_prio",
        "hugetlb",
        "pids",
        "freezer",
        "cpu,cpuacct",
        "devices",
        "blkio",
        "memory",
        "perf_event",
        "cpuset",
    ]
}

/// The mounts of one more controller follow those of the controllers before
/// it.
proof fn lemma_controller_mounts_step(names: Seq<Seq<char>>, i: int)
    requires
        0 <= i < names.len(),
    ensures
        controller_mounts(names.take(i + 1)) == controller_mounts(names.take(i))
            + controller_mount(names[i]),
{
    assert(names.take(i + 1).drop_last() =~= names.take(i));
}

fn push_cgroup_hierarchy(steps: &mut Vec<Step>)
    ensures
        steps_view(final(steps)@) == steps_view(old(steps)@) + cgroup_hierarchy(),
{
    push_mount_point(
        steps,
        "tmpfs",
        "/sys/fs/cgroup",
        WORLD_READABLE,
        false,
        Some("tmpfs"),
        MountFlags::restrictive().with_relatime(),
        Some("mode=755"),
    );
    push_mount_point(
        steps,
        "cgroup2",
        "/sys/fs/cgroup/unified",
        WORLD_READABLE,
        false,
        Some("cgroup2"),
        MountFlags::restrictive().with_relatime(),
        Some("nsdelegate"),
    );
    let names = controller_names();
    let ghost base = steps_view(old(steps)@) + cgroup_root();
    assert(steps_view(steps@) =~= base + controller_mounts(legacy_controllers().take(0)));
    let mut i: usize = 0;
    while i < names.len()
        invariant
            i <= names.len(),
            names@.len() == legacy_controllers().len(),
            forall|k: int|
                0 <= k < names@.len() ==> (#[trigger] names@[k])@ == legacy_controllers()[k],
            steps_view(steps@) == base + controller_mounts(legacy_controllers().take(i as int)),
        decreases names.len() - i,
    {
        let name: &str = names[i];
        let dir = String::from_str("/sys/fs/cgroup/").concat(name);
        proof {
            lemma_controller_mounts_step(legacy_controllers(), i as int);
        }
        push_mount_point(
            steps,
            "cgroup",
            dir.as_str(),
            WORLD_READABLE,
            false,
            Some("cgroup"),
            MountFlags::restrictive().with_relatime(),
            Some(name),
        );
        assert(steps_view(steps@) =~= base + controller_mounts(
            legacy_controllers().take(i + 1),
        ));
        i = i + 1;
    }
    assert(legacy_controllers().take(names@.len() as int) =~= legacy_controllers());
    assert(steps_view(steps@) =~= steps_view(old(steps)@) + cgroup_hierarchy());
}

fn push_file_writes(steps: &mut Vec<Step>, files: Vec<GuestFile>)
    ensures
        steps_view(final(steps)@) == steps_view(old(steps)@) + file_writes(files_view(files@)),
{
    let ghost all = files_view(files@);
    let ghost base = steps_view(steps@);
    assert(steps_view(steps@) =~= base + file_writes(all.take(0)));
    for file in it: files
        invariant
            files_view(it.seq()) == all,
            steps_view(steps@) == base + file_writes(all.take(it.index())),
    {
        let ghost k = it.index();
        assert(file@ == all[k]);
        let GuestFile { path, contents } = file;
        push_step(steps, Step { op: Operation::WriteFile { path, contents }, required: true });
        assert(steps_view(steps@) =~= base + file_writes(all.take(k + 1)));
    }
    assert(all.take(all.len() as int) =~= all);
}

fn push_identity(steps: &mut Vec<Step>, hostname: &str)
    ensures
        steps_view(final(steps)@) == steps_view(old(steps)@) + identity(hostname@),
{
    push_step(steps, Step::make_dir("/etc", OWNER_ONLY, false));
    push_step(steps, Step::write_file("/etc/resolv.conf", RESOLVER_TEXT.as_bytes_vec()));
    push_step(steps, Step::write_file("/etc/hosts", HOSTS_TEXT.as_bytes_vec()));
    push_step(steps, Step::set_hostname(hostname));
    assert(steps_view(steps@) =~= steps_view(old(steps)@) + identity(hostname@));
}

/// What making the plan for a guest with the configuration `config` comes
/// to.
///
/// There is a plan if and only if every payload of the configuration is a
/// base64 encoding. It is the plan for the decoded files and the host name
/// of the configuration. Otherwise the error is the one of the first entry
/// whose payload is rejected.
pub open spec fn planning(
    config: GuestConfigView,
    r: Result<Seq<StepView>, InitErrorView>,
) -> bool {
    match r {
        Ok(plan) => {
            &&& decoding(config.files, Ok(decoded_files(config.files)))
            &&& plan == plan_for(decoded_files(config.files), config.effective_hostname())
        },
        Err(e) => decoding(config.files, Err(e)),
    }
}

/// The view of a plan or of the error in its place.
pub open spec fn plan_view(r: Result<BootPlan, InitError>) -> Result<Seq<StepView>, InitErrorView> {
    match r {
        Ok(plan) => Ok(plan@),
        Err(e) => Err(e@),
    }
}

/// The plan of one guest's bootstrap.
///
/// A plan always keeps the order of [`well_ordered`]: the only plans are
/// those that [`BootPlan::new`] and [`BootPlan::for_guest`] make.
#[derive(Debug)]
pub struct BootPlan {
    steps: Vec<Step>,
}

impl View for BootPlan {
    type V = Seq<StepView>;

    closed spec fn view(&self) -> Seq<StepView> {
        steps_view(self.steps@)
    }
}

impl BootPlan {
    #[verifier::type_invariant]
    spec fn ordered(self) -> bool {
        well_ordered(steps_view(self.steps@))
    }

    /// The plan for a guest with the given files and host name: the fixed
    /// bootstrap, then one write for each file, then the guest's identity.
    pub fn new(files: Vec<GuestFile>, hostname: &str) -> (plan: BootPlan)
        ensures
            plan@ == plan_for(files_view(files@), hostname@),
            well_ordered(plan@),
    {
        let ghost wanted = files_view(files@);
        let mut steps: Vec<Step> = Vec::new();
        push_staging(&mut steps);
        push_root_switch(&mut steps);
        push_pseudo_filesystems(&mut steps);
        push_conveniences(&mut steps);
        push_cgroup_hierarchy(&mut steps);
        push_file_writes(&mut steps, files);
        push_identity(&mut steps, hostname);
        proof {
            lemma_plan_well_ordered(wanted, hostname@);
            assert(steps_view(steps@) =~= plan_for(wanted, hostname@));
        }
        BootPlan { steps }
    }

    /// The plan for a guest with the given configuration.
    ///
    /// There is a plan if and only if every payload of the configuration is
    /// a base64 encoding. It writes each file with its decoded bytes and
    /// sets the configured host name, or the default one. Otherwise the
    /// error is the one of the first payload that is rejected.
    pub fn for_guest(config: GuestConfig) -> (r: Result<BootPlan, InitError>)
        ensures
            planning(config@, plan_view(r)),
            r matches Ok(plan) ==> well_ordered(plan@),
    {
        let hostname = String::from_str(config.hostname());
        match decode_files(config.files) {
            Ok(files) => Ok(BootPlan::new(files, hostname.as_str())),
            Err(e) => Err(e),
        }
    }

    /// The number of steps.
    pub fn len(&self) -> (n: usize)
        ensures
            n == self@.len(),
    {
        self.steps.len()
    }

    /// The step at position `i`, if the plan is that long.
    pub fn get(&self, i: usize) -> (step: Option<&Step>)
        ensures
            match step {
                Some(s) => i < self@.len() && s@ == self@[i as int],
                None => i >= self@.len(),
            },
    {
        if i < self.steps.len() {
            Some(&self.steps[i])
        } else {
            None
        }
    }

    /// The steps of the plan, in order.
    pub fn into_steps(self) -> (steps: Vec<Step>)
        ensures
            steps_view(steps@) == self@,
            well_ordered(self@),
    {
        proof {
            use_type_invariant(&self);
        }
        self.steps
    }
}

} // verus!
