//! The steps a bootstrap plan is made of, and the order they have to keep.
//!
//! A plan is a sequence of steps that a sequencer hands out one at a time. A
//! step is data: the operation to perform and whether its failure ends the
//! boot. What performs it is outside this crate.

use vstd::prelude::*;
use vstd::string::StringExecFns;

use crate::text::{opt_str, opt_text};

verus! {

/// The flags of a mount, one field for each flag that the plan uses.
#[derive(Clone, Copy, Debug, PartialEq, Eq, Structural)]
pub struct MountFlags {
    /// Device nodes on the filesystem are not honoured.
    pub nodev: bool,
    /// Nothing on the filesystem can be executed.
    pub noexec: bool,
    /// Set-uid and set-gid bits are not honoured.
    pub nosuid: bool,
    /// Access times are not updated.
    pub noatime: bool,
    /// Access times are updated relative to modification time.
    pub relatime: bool,
    /// An existing mount is moved instead of a filesystem being mounted.
    pub move_mount: bool,
}

impl MountFlags {
    pub open spec fn spec_none() -> MountFlags {
        MountFlags {
            nodev: false,
            noexec: false,
            nosuid: false,
            noatime: false,
            relatime: false,
            move_mount: false,
        }
    }

    /// No flag at all.
    #[verifier::when_used_as_spec(spec_none)]
    pub fn none() -> (f: MountFlags)
        ensures
            f == Self::spec_none(),
    {
        MountFlags {
            nodev: false,
            noexec: false,
            nosuid: false,
            noatime: false,
            relatime: false,
            move_mount: false,
        }
    }

    pub open spec fn spec_moving() -> MountFlags {
        MountFlags { move_mount: true, ..Self::spec_none() }
    }

    /// The flag set of a move of an existing mount.
    #[verifier::when_used_as_spec(spec_moving)]
    pub fn moving() -> (f: MountFlags)
        ensures
            f == Self::spec_moving(),
    {
        MountFlags { move_mount: true, ..Self::none() }
    }

    pub open spec fn spec_restrictive() -> MountFlags {
        MountFlags { nodev: true, noexec: true, nosuid: true, ..Self::spec_none() }
    }

    /// The default for a pseudo-filesystem: no device nodes, no execution,
    /// no set-uid.
    #[verifier::when_used_as_spec(spec_restrictive)]
    pub fn restrictive() -> (f: MountFlags)
        ensures
            f == Self::spec_restrictive(),
    {
        MountFlags { nodev: true, noexec: true, nosuid: true, ..Self::none() }
    }

    pub open spec fn spec_scratch() -> MountFlags {
        MountFlags { nodev: true, nosuid: true, ..Self::spec_none() }
    }

    /// The flag set of a memory-backed scratch filesystem: no device nodes,
    /// no set-uid.
    #[verifier::when_used_as_spec(spec_scratch)]
    pub fn scratch() -> (f: MountFlags)
        ensures
            f == Self::spec_scratch(),
    {
        MountFlags { nodev: true, nosuid: true, ..Self::none() }
    }

    pub open spec fn spec_terminal() -> MountFlags {
        MountFlags { noexec: true, nosuid: true, noatime: true, ..Self::spec_none() }
    }

    /// The flag set of the pseudo-terminal filesystem: no execution, no
    /// set-uid, no access times.
    #[verifier::when_used_as_spec(spec_terminal)]
    pub fn terminal() -> (f: MountFlags)
        ensures
            f == Self::spec_terminal(),
    {
        MountFlags { noexec: true, nosuid: true, noatime: true, ..Self::none() }
    }

    pub open spec fn spec_with_relatime(self) -> MountFlags {
        MountFlags { relatime: true, ..self }
    }

    /// The same flags with relative access times added.
    #[verifier::when_used_as_spec(spec_with_relatime)]
    pub fn with_relatime(self) -> (f: MountFlags)
        ensures
            f == self.spec_with_relatime(),
    {
        MountFlags { relatime: true, ..self }
    }
}

/// One mount: what is mounted, where, as which filesystem, and how.
#[derive(Clone, Debug, PartialEq, Eq)]
pub struct MountStep {
    pub source: String,
    pub target: String,
    pub fstype: Option<String>,
    pub flags: MountFlags,
    pub options: Option<String>,
}

/// The mathematical model of [`MountStep`].
pub struct MountView {
    pub source: Seq<char>,
    pub target: Seq<char>,
    pub fstype: Option<Seq<char>>,
    pub flags: MountFlags,
    pub options: Option<Seq<char>>,
}

impl View for MountStep {
    type V = MountView;

    open spec fn view(&self) -> MountView {
        MountView {
            source: self.source@,
            target: self.target@,
            fstype: opt_text(self.fstype),
            flags: self.flags,
            options: opt_text(self.options),
        }
    }
}

/// What a step does.
#[derive(Clone, Debug, PartialEq, Eq)]
pub enum Operation {
    /// Create a directory with the given permission bits.
    MakeDir { path: String, mode: u32 },
    /// Mount a filesystem, or move a mount.
    Mount(MountStep),
    /// Change the working directory.
    ChangeDir { path: String },
    /// Change the root directory.
    ChangeRoot { path: String },
    /// Create the symbolic link `link` that points at `target`.
    Symlink { target: String, link: String },
    /// Raise both limits on open file descriptors to `limit`.
    RaiseFdLimit { limit: u64 },
    /// Create or truncate the file and write `contents` to it.
    WriteFile { path: String, contents: Vec<u8> },
    /// Set the host name.
    SetHostname { name: String },
}

/// The mathematical model of [`Operation`].
pub enum OperationView {
    MakeDir { path: Seq<char>, mode: u32 },
    Mount(MountView),
    ChangeDir { path: Seq<char> },
    ChangeRoot { path: Seq<char> },
    Symlink { target: Seq<char>, link: Seq<char> },
    RaiseFdLimit { limit: u64 },
    WriteFile { path: Seq<char>, contents: Seq<u8> },
    SetHostname { name: Seq<char> },
}

impl View for Operation {
    type V = OperationView;

    open spec fn view(&self) -> OperationView {
        match *self {
            Operation::MakeDir { path, mode } => OperationView::MakeDir { path: path@, mode },
            Operation::Mount(m) => OperationView::Mount(m@),
            Operation::ChangeDir { path } => OperationView::ChangeDir { path: path@ },
            Operation::ChangeRoot { path } => OperationView::ChangeRoot { path: path@ },
            Operation::Symlink { target, link } => OperationView::Symlink {
                target: target@,
                link: link@,
            },
            Operation::RaiseFdLimit { limit } => OperationView::RaiseFdLimit { limit },
            Operation::WriteFile { path, contents } => OperationView::WriteFile {
                path: path@,
                contents: contents@,
            },
            Operation::SetHostname { name } => OperationView::SetHostname { name: name@ },
        }
    }
}

/// One step of a plan: an operation, and whether its failure is fatal.
///
/// A step that is not required is attempted all the same; its failure is
/// recorded and the plan goes on. Such steps are those that may find their
/// work already done, like creating a directory that exists.
#[derive(Clone, Debug, PartialEq, Eq)]
pub struct Step {
    pub op: Operation,
    pub required: bool,
}

/// The mathematical model of [`Step`].
pub struct StepView {
    pub op: OperationView,
    pub required: bool,
}

impl View for Step {
    type V = StepView;

    open spec fn view(&self) -> StepView {
        StepView { op: self.op@, required: self.required }
    }
}

/// The step that creates the directory `path`.
pub open spec fn make_dir(path: Seq<char>, mode: u32, required: bool) -> StepView {
    StepView { op: OperationView::MakeDir { path, mode }, required }
}

/// The required step that mounts `source` on `target`.
pub open spec fn mount(
    source: Seq<char>,
    target: Seq<char>,
    fstype: Option<Seq<char>>,
    flags: MountFlags,
    options: Option<Seq<char>>,
) -> StepView {
    StepView {
        op: OperationView::Mount(MountView { source, target, fstype, flags, options }),
        required: true,
    }
}

/// The required step that changes the working directory to `path`.
pub open spec fn change_dir(path: Seq<char>) -> StepView {
    StepView { op: OperationView::ChangeDir { path }, required: true }
}

/// The required step that changes the root directory to `path`.
pub open spec fn change_root(path: Seq<char>) -> StepView {
    StepView { op: OperationView::ChangeRoot { path }, required: true }
}

/// The best-effort step that makes `link` a symbolic link to `target`.
pub open spec fn symlink(target: Seq<char>, link: Seq<char>) -> StepView {
    StepView { op: OperationView::Symlink { target, link }, required: false }
}

/// The best-effort step that raises the limit on open file descriptors.
pub open spec fn raise_fd_limit(limit: u64) -> StepView {
    StepView { op: OperationView::RaiseFdLimit { limit }, required: false }
}

/// The required step that writes `contents` to the file `path`.
pub open spec fn write_file(path: Seq<char>, contents: Seq<u8>) -> StepView {
    StepView { op: OperationView::WriteFile { path, contents }, required: true }
}

/// The best-effort step that sets the host name.
pub open spec fn set_hostname(name: Seq<char>) -> StepView {
    StepView { op: OperationView::SetHostname { name }, required: false }
}

fn owned(s: Option<&str>) -> (r: Option<String>)
    ensures
        opt_text(r) == opt_str(s),
{
    match s {
        Some(t) => Some(String::from_str(t)),
        None => None,
    }
}

impl Step {
    pub fn make_dir(path: &str, mode: u32, required: bool) -> (s: Step)
        ensures
            s@ == make_dir(path@, mode, required),
    {
        Step { op: Operation::MakeDir { path: String::from_str(path), mode }, required }
    }

    pub fn mount(
        source: &str,
        target: &str,
        fstype: Option<&str>,
        flags: MountFlags,
        options: Option<&str>,
    ) -> (s: Step)
        ensures
            s@ == mount(source@, target@, opt_str(fstype), flags, opt_str(options)),
    {
        Step {
            op: Operation::Mount(
                MountStep {
                    source: String::from_str(source),
                    target: String::from_str(target),
                    fstype: owned(fstype),
                    flags,
                    options: owned(options),
                },
            ),
            required: true,
        }
    }

    pub fn change_dir(path: &str) -> (s: Step)
        ensures
            s@ == change_dir(path@),
    {
        Step { op: Operation::ChangeDir { path: String::from_str(path) }, required: true }
    }

    pub fn change_root(path: &str) -> (s: Step)
        ensures
            s@ == change_root(path@),
    {
        Step { op: Operation::ChangeRoot { path: String::from_str(path) }, required: true }
    }

    pub fn symlink(target: &str, link: &str) -> (s: Step)
        ensures
            s@ == symlink(target@, link@),
    {
        Step {
            op: Operation::Symlink {
                target: String::from_str(target),
                link: String::from_str(link),
            },
            required: false,
        }
    }

    pub fn raise_fd_limit(limit: u64) -> (s: Step)
        ensures
            s@ == raise_fd_limit(limit),
    {
        Step { op: Operation::RaiseFdLimit { limit }, required: false }
    }

    pub fn write_file(path: &str, contents: Vec<u8>) -> (s: Step)
        ensures
            s@ == write_file(path@, contents@),
    {
        Step { op: Operation::WriteFile { path: String::from_str(path), contents }, required: true }
    }

    pub fn set_hostname(name: &str) -> (s: Step)
        ensures
            s@ == set_hostname(name@),
    {
        Step { op: Operation::SetHostname { name: String::from_str(name) }, required: false }
    }
}

/// The views of a sequence of steps, in the same order.
pub open spec fn steps_view(steps: Seq<Step>) -> Seq<StepView> {
    Seq::new(steps.len(), |i: int| steps[i]@)
}

} // verus!
