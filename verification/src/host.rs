//! What the library asks of the machine, and what it is told in return.
//!
//! A procedure that needs the file system, a process or the kernel is a state
//! with a pending [`Action`]. The caller performs the action and hands the
//! [`Reply`] back, which gives the next state.

use vstd::prelude::*;
use crate::text::opt;

verus! {

/// A program with its arguments.
#[derive(Debug)]
pub struct Command {
    pub program: String,
    pub args: Vec<String>,
}

/// The mathematical counterpart of [`Command`].
#[verifier::ext_equal]
pub struct CommandView {
    pub program: Seq<char>,
    pub args: Seq<Seq<char>>,
}

impl View for Command {
    type V = CommandView;

    open spec fn view(&self) -> CommandView {
        CommandView { program: self.program@, args: self.args.deep_view() }
    }
}

/// The flags of a mount.
#[derive(Debug, Clone, Copy, PartialEq, Eq, Structural)]
pub struct MountFlags {
    pub read_only: bool,
    pub no_suid: bool,
    pub no_dev: bool,
    pub no_exec: bool,
    pub bind: bool,
}

/// A mount: what, where, as which file system, with which flags. No data goes
/// with it.
#[derive(Debug)]
pub struct MountCall {
    pub source: String,
    pub target: String,
    pub fstype: Option<String>,
    pub flags: MountFlags,
}

/// The mathematical counterpart of [`MountCall`].
#[verifier::ext_equal]
pub struct MountCallView {
    pub source: Seq<char>,
    pub target: Seq<char>,
    pub fstype: Option<Seq<char>>,
    pub flags: MountFlags,
}

impl View for MountCall {
    type V = MountCallView;

    open spec fn view(&self) -> MountCallView {
        MountCallView {
            source: self.source@,
            target: self.target@,
            fstype: opt(self.fstype),
            flags: self.flags,
        }
    }
}

/// An entry of a directory, with the content of one attribute file below it
/// where that can be read.
#[derive(Debug)]
pub struct DirEntry {
    pub name: String,
    pub content: Option<String>,
}

/// The mathematical counterpart of [`DirEntry`].
#[verifier::ext_equal]
pub struct DirEntryView {
    pub name: Seq<char>,
    pub content: Option<Seq<char>>,
}

impl View for DirEntry {
    type V = DirEntryView;

    open spec fn view(&self) -> DirEntryView {
        DirEntryView { name: self.name@, content: opt(self.content) }
    }
}

impl DeepView for DirEntry {
    type V = DirEntryView;

    open spec fn deep_view(&self) -> DirEntryView {
        self@
    }
}

/// What is to be done next.
#[derive(Debug)]
pub enum Action {
    /// Read the file `path`. Answered by `Text` or `Failed`.
    ReadFile { path: String },
    /// Find out whether `path` is a directory. Answered by `IsDir`.
    ProbeDir { path: String },
    /// List the directory `path`, and read `<path>/<entry>/<attribute>` for each
    /// entry. Answered by `Entries`, or by `Failed` where there is no listing.
    ScanDir { path: String, attribute: String },
    /// Run a program to its end. Answered by `Done` or `Failed`.
    Run { command: Command },
    /// Create a directory and its parents. Answered by `Done` or `Failed`.
    CreateDirAll { path: String },
    /// Set an environment variable. Answered by `Done`.
    SetEnv { key: String, value: String },
    /// Mount a file system. Answered by `Done` or `Failed`.
    Mount { call: MountCall },
    /// Nothing: the procedure is complete.
    Finish,
    /// Panic with the message: the procedure must not go on.
    Panic { message: String },
}

/// The mathematical counterpart of [`Action`].
#[verifier::ext_equal]
pub enum ActionView {
    ReadFile { path: Seq<char> },
    ProbeDir { path: Seq<char> },
    ScanDir { path: Seq<char>, attribute: Seq<char> },
    Run { command: CommandView },
    CreateDirAll { path: Seq<char> },
    SetEnv { key: Seq<char>, value: Seq<char> },
    Mount { call: MountCallView },
    Finish,
    Panic { message: Seq<char> },
}

impl View for Action {
    type V = ActionView;

    open spec fn view(&self) -> ActionView {
        match *self {
            Action::ReadFile { path } => ActionView::ReadFile { path: path@ },
            Action::ProbeDir { path } => ActionView::ProbeDir { path: path@ },
            Action::ScanDir { path, attribute } => ActionView::ScanDir {
                path: path@,
                attribute: attribute@,
            },
            Action::Run { command } => ActionView::Run { command: command@ },
            Action::CreateDirAll { path } => ActionView::CreateDirAll { path: path@ },
            Action::SetEnv { key, value } => ActionView::SetEnv { key: key@, value: value@ },
            Action::Mount { call } => ActionView::Mount { call: call@ },
            Action::Finish => ActionView::Finish,
            Action::Panic { message } => ActionView::Panic { message: message@ },
        }
    }
}

impl ActionView {
    /// Whether the procedure is over.
    pub open spec fn terminal(self) -> bool {
        self is Finish || self is Panic
    }
}

/// What came of an action.
#[derive(Debug)]
pub enum Reply {
    /// The content of the file.
    Text(String),
    /// Whether the path is a directory.
    IsDir(bool),
    /// The entries of the directory, in the order of the listing.
    Entries(Vec<DirEntry>),
    /// The action succeeded.
    Done,
    /// The action failed.
    Failed,
}

/// The mathematical counterpart of [`Reply`].
#[verifier::ext_equal]
pub enum ReplyView {
    Text(Seq<char>),
    IsDir(bool),
    Entries(Seq<DirEntryView>),
    Done,
    Failed,
}

impl View for Reply {
    type V = ReplyView;

    open spec fn view(&self) -> ReplyView {
        match *self {
            Reply::Text(text) => ReplyView::Text(text@),
            Reply::IsDir(b) => ReplyView::IsDir(b),
            Reply::Entries(entries) => ReplyView::Entries(entries.deep_view()),
            Reply::Done => ReplyView::Done,
            Reply::Failed => ReplyView::Failed,
        }
    }
}

impl ReplyView {
    /// Whether this can be the outcome of `action`. A reply that cannot be leaves
    /// a procedure where it is.
    pub open spec fn answers(self, action: ActionView) -> bool {
        match action {
            ActionView::ReadFile { .. } => self is Text || self is Failed,
            ActionView::ProbeDir { .. } => self is IsDir,
            ActionView::ScanDir { .. } => self is Entries || self is Failed,
            ActionView::Run { .. } => self is Done || self is Failed,
            ActionView::CreateDirAll { .. } => self is Done || self is Failed,
            ActionView::SetEnv { .. } => self is Done,
            ActionView::Mount { .. } => self is Done || self is Failed,
            ActionView::Finish => false,
            ActionView::Panic { .. } => false,
        }
    }
}

} // verus!
