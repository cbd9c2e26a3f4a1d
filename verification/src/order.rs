//! The order that the steps of a plan have to keep.
//!
//! Later steps of a bootstrap depend on earlier ones: a mount needs its
//! directory, a path under `/dev` needs the device tree, and everything that
//! is meant for the guest's own root needs the root switch behind it. This
//! module states those dependencies as a predicate on a plan and proves the
//! lemmas by which a plan is shown to keep them piece by piece.

use vstd::prelude::*;

use crate::plan::{change_dir, change_root, mount, MountFlags, MountView, OperationView, StepView};

verus! {

/// True if `path` begins with `prefix`.
pub open spec fn starts_with(path: Seq<char>, prefix: Seq<char>) -> bool {
    &&& prefix.len() <= path.len()
    &&& forall|i: int| 0 <= i < prefix.len() ==> path[i] == prefix[i]
}

/// True if `path` lies below `/dev`.
pub open spec fn under_dev(path: Seq<char>) -> bool {
    starts_with(path, "/dev/"@)
}

/// True if the operation names a path below `/dev`, or moves `/dev` itself:
/// it can only work once the device tree is there.
pub open spec fn uses_device_tree(op: OperationView) -> bool {
    match op {
        OperationView::MakeDir { path, .. } => under_dev(path),
        OperationView::Mount(m) => under_dev(m.source) || under_dev(m.target) || m.source
            == "/dev"@,
        OperationView::ChangeDir { path } => under_dev(path),
        OperationView::ChangeRoot { path } => under_dev(path),
        OperationView::Symlink { link, .. } => under_dev(link),
        OperationView::RaiseFdLimit { .. } => false,
        OperationView::WriteFile { path, .. } => under_dev(path),
        OperationView::SetHostname { .. } => false,
    }
}

/// The mount of the device-node filesystem on `/dev`.
pub open spec fn device_tree_mount() -> StepView {
    mount("devtmpfs"@, "/dev"@, Some("devtmpfs"@), MountFlags::none(), None)
}

/// The mount of the root block device on `/newroot`.
pub open spec fn root_device_mount() -> StepView {
    mount("/dev/vdb"@, "/newroot"@, Some("ext4"@), MountFlags::none(), None)
}

/// The move of the populated `/dev` into the new root.
pub open spec fn device_tree_move() -> StepView {
    mount("/dev"@, "/newroot/dev"@, None, MountFlags::moving(), None)
}

/// First step of the root switch: enter the new root.
pub open spec fn enter_new_root() -> StepView {
    change_dir("/newroot"@)
}

/// Second step of the root switch: move the working directory onto `/`.
pub open spec fn pivot() -> StepView {
    mount("."@, "/"@, None, MountFlags::moving(), None)
}

/// Third step of the root switch: make the working directory the root.
pub open spec fn leave_old_root() -> StepView {
    change_root("."@)
}

/// Last step of the root switch: enter the root that is now in place.
pub open spec fn enter_root() -> StepView {
    change_dir("/"@)
}

/// The root switch: its four steps, in order.
pub open spec fn root_switch() -> Seq<StepView> {
    seq![enter_new_root(), pivot(), leave_old_root(), enter_root()]
}

/// True if the mount moves something onto `/`.
pub open spec fn moves_onto_root(m: MountView) -> bool {
    m.flags.move_mount && m.target == "/"@
}

/// True for the mount points that exist before the root switch.
pub open spec fn staging_target(target: Seq<char>) -> bool {
    target == "/dev"@ || target == "/newroot"@ || target == "/newroot/dev"@
}

/// True if `step` creates the directory `path`.
pub open spec fn makes(step: StepView, path: Seq<char>) -> bool {
    match step.op {
        OperationView::MakeDir { path: made, .. } => made == path,
        _ => false,
    }
}

/// True if one of `done` creates the directory `path`.
pub open spec fn directory_made(done: Seq<StepView>, path: Seq<char>) -> bool {
    exists|j: int| 0 <= j < done.len() && makes(#[trigger] done[j], path)
}

/// True if steps `k` to `k + 3` of `done` are the four steps of the root
/// switch.
pub open spec fn switch_at(done: Seq<StepView>, k: int) -> bool {
    &&& 0 <= k
    &&& k + 4 <= done.len()
    &&& done[k] == enter_new_root()
    &&& done[k + 1] == pivot()
    &&& done[k + 2] == leave_old_root()
    &&& done[k + 3] == enter_root()
}

/// True if `done` holds the four steps of the root switch, one after the
/// other.
pub open spec fn switched(done: Seq<StepView>) -> bool {
    exists|k: int| #[trigger] switch_at(done, k)
}

/// True if `step` names a path that is meant to lie in the guest's own
/// root: every directory and mount but those on the staging mount points,
/// every link and file, and every change of directory but those of the root
/// switch.
pub open spec fn for_guest_root(step: StepView) -> bool {
    match step.op {
        OperationView::MakeDir { path, .. } => !staging_target(path),
        OperationView::Mount(m) => !moves_onto_root(m) && !staging_target(m.target),
        OperationView::ChangeDir { .. } => step != enter_new_root() && step != enter_root(),
        OperationView::ChangeRoot { .. } => false,
        OperationView::Symlink { .. } => true,
        OperationView::RaiseFdLimit { .. } => false,
        OperationView::WriteFile { .. } => true,
        OperationView::SetHostname { .. } => false,
    }
}

/// True if `next` may follow the steps `done`.
///
/// - A step that uses the device tree follows the mount of the device tree.
/// - A step that names a path of the guest's own root follows the root
///   switch, for only then does the path lead there.
/// - A mount follows a step that creates its target.
/// - The root switch itself is made of exactly its four steps, one directly
///   after the other, and follows the mount of the root device and the move
///   of the device tree into it.
pub open spec fn admits(done: Seq<StepView>, next: StepView) -> bool {
    &&& uses_device_tree(next.op) ==> done.contains(device_tree_mount())
    &&& for_guest_root(next) ==> switched(done)
    &&& match next.op {
        OperationView::Mount(m) => if moves_onto_root(m) {
            &&& next == pivot()
            &&& done.len() > 0
            &&& done.last() == enter_new_root()
            &&& done.contains(root_device_mount())
            &&& done.contains(device_tree_move())
        } else {
            directory_made(done, m.target)
        },
        OperationView::ChangeRoot { .. } => {
            &&& next == leave_old_root()
            &&& done.len() > 0
            &&& done.last() == pivot()
        },
        OperationView::ChangeDir { .. } => next == enter_root() ==> {
            ||| done.len() > 0 && done.last() == leave_old_root()
            ||| switched(done)
        },
        _ => true,
    }
}

/// True if every step of `plan` may follow the steps before it.
pub open spec fn well_ordered(plan: Seq<StepView>) -> bool {
    forall|i: int| 0 <= i < plan.len() ==> admits(#[trigger] plan.take(i), plan[i])
}

/// True once the device tree is mounted and the root switch is done: from
/// here on a plan can be extended by steps that bring what they need.
pub open spec fn settled(done: Seq<StepView>) -> bool {
    done.contains(device_tree_mount()) && switched(done)
}

/// True if the steps of `tail` depend on nothing but `tail` itself and a
/// settled plan before it: no step of the root switch, and every mount
/// after a step of `tail` that creates its target.
pub open spec fn self_contained(tail: Seq<StepView>) -> bool {
    forall|j: int|
        0 <= j < tail.len() ==> match (#[trigger] tail[j]).op {
            OperationView::Mount(m) => !moves_onto_root(m) && directory_made(
                tail.take(j),
                m.target,
            ),
            OperationView::ChangeRoot { .. } => false,
            _ => true,
        }
}

/// What holds of a plan carries over to a longer one: a step that occurs
/// still occurs.
pub proof fn lemma_contains_extends(done: Seq<StepView>, more: Seq<StepView>, step: StepView)
    requires
        done.contains(step),
    ensures
        (done + more).contains(step),
{
    let j = choose|j: int| 0 <= j < done.len() && done[j] == step;
    assert((done + more)[j] == step);
}

/// A directory that was made is still made in a longer plan.
pub proof fn lemma_directory_made_extends(
    before: Seq<StepView>,
    done: Seq<StepView>,
    more: Seq<StepView>,
    path: Seq<char>,
)
    requires
        directory_made(done, path),
    ensures
        directory_made(before + done + more, path),
{
    let j = choose|j: int| 0 <= j < done.len() && makes(#[trigger] done[j], path);
    let all = before + done + more;
    assert(all[before.len() + j] == done[j]);
}

/// A root switch that was made is still made in a longer plan.
pub proof fn lemma_switched_extends(done: Seq<StepView>, more: Seq<StepView>)
    requires
        switched(done),
    ensures
        switched(done + more),
{
    let k = choose|k: int| #[trigger] switch_at(done, k);
    let all = done + more;
    assert(all[k] == done[k]);
    assert(all[k + 1] == done[k + 1]);
    assert(all[k + 2] == done[k + 2]);
    assert(all[k + 3] == done[k + 3]);
    assert(switch_at(all, k));
}

/// A settled plan stays settled when steps are appended.
pub proof fn lemma_settled_extends(done: Seq<StepView>, more: Seq<StepView>)
    requires
        settled(done),
    ensures
        settled(done + more),
{
    lemma_contains_extends(done, more, device_tree_mount());
    lemma_switched_extends(done, more);
}

/// A well-ordered, settled plan stays so when a self-contained tail is
/// appended.
pub proof fn lemma_extend(done: Seq<StepView>, tail: Seq<StepView>)
    requires
        well_ordered(done),
        settled(done),
        self_contained(tail),
    ensures
        well_ordered(done + tail),
        settled(done + tail),
{
    let all = done + tail;
    lemma_settled_extends(done, tail);
    assert forall|i: int| 0 <= i < all.len() implies admits(#[trigger] all.take(i), all[i]) by {
        if i < done.len() {
            assert(all.take(i) =~= done.take(i));
            assert(all[i] == done[i]);
        } else {
            let j = i - done.len();
            let before = tail.take(j);
            assert(all.take(i) =~= done + before);
            assert(all[i] == tail[j]);
            lemma_settled_extends(done, before);
            match tail[j].op {
                OperationView::Mount(m) => {
                    lemma_directory_made_extends(done, before, Seq::empty(), m.target);
                    assert(done + before + Seq::<StepView>::empty() =~= done + before);
                },
                _ => {},
            }
        }
    }
}

/// Two self-contained sequences make a self-contained sequence.
pub proof fn lemma_self_contained_concat(a: Seq<StepView>, b: Seq<StepView>)
    requires
        self_contained(a),
        self_contained(b),
    ensures
        self_contained(a + b),
{
    let all = a + b;
    assert forall|j: int| 0 <= j < all.len() implies match (#[trigger] all[j]).op {
        OperationView::Mount(m) => !moves_onto_root(m) && directory_made(all.take(j), m.target),
        OperationView::ChangeRoot { .. } => false,
        _ => true,
    } by {
        if j < a.len() {
            assert(all[j] == a[j]);
            assert(all.take(j) =~= a.take(j));
        } else {
            let k = j - a.len();
            assert(all[j] == b[k]);
            assert(all.take(j) =~= a + b.take(k));
            match b[k].op {
                OperationView::Mount(m) => {
                    lemma_directory_made_extends(a, b.take(k), Seq::empty(), m.target);
                    assert(a + b.take(k) + Seq::<StepView>::empty() =~= a + b.take(k));
                },
                _ => {},
            }
        }
    }
}

/// A directory and the mount on it, one after the other, are self-contained
/// unless the mount is a move.
pub proof fn lemma_mount_point_self_contained(dir: StepView, mounted: StepView)
    requires
        dir.op is MakeDir,
        mounted.op is Mount,
        mounted.op->Mount_0.target == dir.op->MakeDir_path,
        !mounted.op->Mount_0.flags.move_mount,
    ensures
        self_contained(seq![dir, mounted]),
{
    let pair = seq![dir, mounted];
    assert forall|j: int| 0 <= j < pair.len() implies match (#[trigger] pair[j]).op {
        OperationView::Mount(m) => !moves_onto_root(m) && directory_made(pair.take(j), m.target),
        OperationView::ChangeRoot { .. } => false,
        _ => true,
    } by {
        if j == 1 {
            assert(pair.take(1)[0] == dir);
        }
    }
}

} // verus!
