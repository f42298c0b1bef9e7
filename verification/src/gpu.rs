//! Consume the cold-plugged `gpu` addon mounted at `/run/kata-addons/gpu`.
//!
//! With composable images the base NVIDIA rootfs ships only NVRC and the
//! kata-agent; the GPU userspace (driver libraries, kernel modules, service
//! binaries, configs and firmware) lives in the `gpu` addon, and is resolved from
//! the addon mount instead of the rootfs. When the addon is absent (monolithic
//! NVIDIA image) everything falls back to the canonical rootfs paths.

use vstd::prelude::*;
use crate::host::{Action, ActionView, MountCall, MountCallView, MountFlags, Reply, ReplyView};
use crate::text::{opt, starts_with};

verus! {

/// Mount point of the GPU addon. The addon is present when this is a directory.
pub const ROOT: &'static str = "/run/kata-addons/gpu";

/// Addon firmware tree.
pub const FIRMWARE_SRC: &'static str = "/run/kata-addons/gpu/lib/firmware/nvidia";

/// The rootfs directory the kernel firmware loader searches by default, an empty
/// directory provided by the base image.
pub const FIRMWARE_DST: &'static str = "/lib/firmware/nvidia";

/// How the names of the kernel modules in the addon begin.
pub const MODULE_PREFIX: &'static str = "nvidia";

/// The place of a component: below `root` if that is present, else in the rootfs.
pub open spec fn resolved(present: bool, root: Seq<char>, path: Seq<char>) -> Seq<char> {
    if present {
        root + path
    } else {
        path
    }
}

/// The directory whose modules `modprobe` is to use, if not those of the rootfs.
pub open spec fn module_root(present: bool, root: Seq<char>, module: Seq<char>) -> Option<
    Seq<char>,
> {
    if present && MODULE_PREFIX@.is_prefix_of(module) {
        Some(root)
    } else {
        None
    }
}

/// The library directories of the addon.
pub open spec fn library_dirs(present: bool) -> Seq<Seq<char>> {
    if present {
        seq![ROOT@ + "/lib"@, ROOT@ + "/usr/lib"@]
    } else {
        Seq::empty()
    }
}

/// The value of `LD_LIBRARY_PATH` for the addon.
pub open spec fn library_path() -> Seq<char> {
    ROOT@ + "/lib:"@ + ROOT@ + "/usr/lib"@
}

/// The mount that makes the directory `src` visible at `dst`.
pub open spec fn bind_mount(src: Seq<char>, dst: Seq<char>) -> MountCallView {
    MountCallView {
        source: src,
        target: dst,
        fstype: None,
        flags: MountFlags {
            read_only: false,
            no_suid: false,
            no_dev: false,
            no_exec: false,
            bind: true,
        },
    }
}

/// Resolve a canonical rootfs component path to its location below `root` when
/// that is present, otherwise return it unchanged.
pub fn resolve_in(present: bool, root: &str, path: &str) -> (res: String)
    ensures
        res@ == resolved(present, root@, path@),
{
    if present {
        root.to_owned().concat(path)
    } else {
        path.to_owned()
    }
}

/// Resolve a canonical rootfs component path to its addon location when the GPU
/// addon is present, otherwise return it unchanged.
pub fn resolve(present: bool, path: &str) -> (res: String)
    ensures
        res@ == resolved(present, ROOT@, path@),
{
    resolve_in(present, ROOT, path)
}

/// `modprobe --dirname` value for `module`: `root` for NVIDIA modules when that is
/// present, otherwise `None` (use the rootfs `/lib/modules`).
pub fn modprobe_dirname_in(present: bool, root: &str, module: &str) -> (res: Option<String>)
    ensures
        opt(res) == module_root(present, root@, module@),
{
    if present && starts_with(module, MODULE_PREFIX) {
        Some(root.to_owned())
    } else {
        None
    }
}

/// `modprobe --dirname` value for `module`: the addon root for NVIDIA modules
/// when the addon is present, otherwise `None` (use the rootfs `/lib/modules`).
/// In-tree modules such as `ib_umad`/`mlx5_ib` stay in the base image.
pub fn modprobe_dirname(present: bool, module: &str) -> (res: Option<String>)
    ensures
        opt(res) == module_root(present, ROOT@, module@),
{
    modprobe_dirname_in(present, ROOT, module)
}

/// The library directories of the addon; none when the addon is absent.
pub fn library_search_paths(present: bool) -> (res: Vec<String>)
    ensures
        res.deep_view() == library_dirs(present),
{
    let res: Vec<String> = if present {
        vec![ROOT.to_owned().concat("/lib"), ROOT.to_owned().concat("/usr/lib")]
    } else {
        Vec::new()
    };
    assert(res.deep_view() =~= library_dirs(present));
    res
}

/// Bind-mount directory `src` onto `dst`. `dst` must already exist (the base
/// rootfs is read-only, so the mountpoint is baked in at image build time).
pub fn bind_dir(src: &str, dst: &str) -> (res: MountCall)
    ensures
        res@ == bind_mount(src@, dst@),
{
    MountCall {
        source: src.to_owned(),
        target: dst.to_owned(),
        fstype: None,
        flags: MountFlags {
            read_only: false,
            no_suid: false,
            no_dev: false,
            no_exec: false,
            bind: true,
        },
    }
}

/// The preparation of the environment for GPU components: how far it has come.
#[derive(Debug)]
pub enum Setup {
    /// It is found out whether the addon is present.
    ProbeAddon,
    /// The addon libraries are exposed.
    SetLibraryPath,
    /// It is found out whether the addon ships firmware.
    ProbeFirmware,
    /// The addon firmware is bound onto the canonical path.
    BindFirmware,
    /// The environment is prepared.
    Finished,
    /// The environment cannot be prepared.
    Panicked { message: String },
}

/// The mathematical counterpart of [`Setup`].
#[verifier::ext_equal]
pub enum SetupView {
    ProbeAddon,
    SetLibraryPath,
    ProbeFirmware,
    BindFirmware,
    Finished,
    Panicked { message: Seq<char> },
}

impl View for Setup {
    type V = SetupView;

    open spec fn view(&self) -> SetupView {
        match *self {
            Setup::ProbeAddon => SetupView::ProbeAddon,
            Setup::SetLibraryPath => SetupView::SetLibraryPath,
            Setup::ProbeFirmware => SetupView::ProbeFirmware,
            Setup::BindFirmware => SetupView::BindFirmware,
            Setup::Finished => SetupView::Finished,
            Setup::Panicked { message } => SetupView::Panicked { message: message@ },
        }
    }
}

impl SetupView {
    /// What is to be done in this state.
    pub open spec fn pending(self) -> ActionView {
        match self {
            SetupView::ProbeAddon => ActionView::ProbeDir { path: ROOT@ },
            SetupView::SetLibraryPath => ActionView::SetEnv {
                key: "LD_LIBRARY_PATH"@,
                value: library_path(),
            },
            SetupView::ProbeFirmware => ActionView::ProbeDir { path: FIRMWARE_SRC@ },
            SetupView::BindFirmware => ActionView::Mount {
                call: bind_mount(FIRMWARE_SRC@, FIRMWARE_DST@),
            },
            SetupView::Finished => ActionView::Finish,
            SetupView::Panicked { message } => ActionView::Panic { message },
        }
    }

    /// The state after `reply`. A reply that does not answer the pending action
    /// changes nothing.
    pub open spec fn advance(self, reply: ReplyView) -> Self {
        match (self, reply) {
            (SetupView::ProbeAddon, ReplyView::IsDir(true)) => SetupView::SetLibraryPath,
            (SetupView::ProbeAddon, ReplyView::IsDir(false)) => SetupView::Finished,
            (SetupView::SetLibraryPath, ReplyView::Done) => SetupView::ProbeFirmware,
            (SetupView::ProbeFirmware, ReplyView::IsDir(true)) => SetupView::BindFirmware,
            (SetupView::ProbeFirmware, ReplyView::IsDir(false)) => SetupView::Finished,
            (SetupView::BindFirmware, ReplyView::Done) => SetupView::Finished,
            (SetupView::BindFirmware, ReplyView::Failed) => SetupView::Panicked {
                message: "bind "@ + FIRMWARE_SRC@ + " -> "@ + FIRMWARE_DST@,
            },
            _ => self,
        }
    }
}

/// Prepare the environment for GPU components: expose the addon libraries via
/// `LD_LIBRARY_PATH` (inherited by every daemon NVRC spawns) and bind the addon
/// firmware onto the canonical path. No-op without the addon.
pub fn setup() -> (res: Setup)
    ensures
        res@ == SetupView::ProbeAddon,
{
    Setup::ProbeAddon
}

/// Bind the addon firmware tree onto `/lib/firmware/nvidia` so the kernel's
/// `request_firmware` finds GSP (and other) firmware at the default search
/// path. Skipped when the addon ships no firmware.
pub fn bind_firmware() -> (res: Setup)
    ensures
        res@ == SetupView::ProbeFirmware,
{
    Setup::ProbeFirmware
}

impl Setup {
    /// What is to be done in this state.
    pub fn pending(&self) -> (res: Action)
        ensures
            res@ == self@.pending(),
    {
        match self {
            Setup::ProbeAddon => Action::ProbeDir { path: ROOT.to_owned() },
            Setup::SetLibraryPath => Action::SetEnv {
                key: "LD_LIBRARY_PATH".to_owned(),
                value: ROOT.to_owned().concat("/lib:").concat(ROOT).concat("/usr/lib"),
            },
            Setup::ProbeFirmware => Action::ProbeDir { path: FIRMWARE_SRC.to_owned() },
            Setup::BindFirmware => Action::Mount { call: bind_dir(FIRMWARE_SRC, FIRMWARE_DST) },
            Setup::Finished => Action::Finish,
            Setup::Panicked { message } => Action::Panic { message: message.clone() },
        }
    }

    /// The state after `reply`. A reply that does not answer the pending action
    /// changes nothing.
    pub fn advance(self, reply: Reply) -> (res: Self)
        ensures
            res@ == self@.advance(reply@),
    {
        match self {
            Setup::ProbeAddon => match reply {
                Reply::IsDir(true) => Setup::SetLibraryPath,
                Reply::IsDir(false) => Setup::Finished,
                _ => Setup::ProbeAddon,
            },
            Setup::SetLibraryPath => match reply {
                Reply::Done => bind_firmware(),
                _ => Setup::SetLibraryPath,
            },
            Setup::ProbeFirmware => match reply {
                Reply::IsDir(true) => Setup::BindFirmware,
                Reply::IsDir(false) => Setup::Finished,
                _ => Setup::ProbeFirmware,
            },
            Setup::BindFirmware => match reply {
                Reply::Done => Setup::Finished,
                Reply::Failed => Setup::Panicked {
                    message: "bind ".to_owned().concat(FIRMWARE_SRC).concat(" -> ").concat(
                        FIRMWARE_DST,
                    ),
                },
                _ => Setup::BindFirmware,
            },
            Setup::Finished => Setup::Finished,
            Setup::Panicked { message } => Setup::Panicked { message },
        }
    }
}

} // verus!
