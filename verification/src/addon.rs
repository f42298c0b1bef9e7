//! Mount cold-plugged composable VM image addons before kata-agent starts.
//!
//! For each `kata.addon.<name>.verity_params=...` on the kernel command line, find
//! the cold-plugged virtio-blk device (serial `addon-<name>`), open it with
//! dm-verity, and mount the EROFS read-only at `/run/kata-addons/<name>/`. Any
//! failure ends in a panic (powering off the VM): a confidential VM must not run
//! with a missing or tampered addon.

use vstd::prelude::*;
use crate::cmdline::{addons, try_parse_addons};
use crate::device::{
    device_with_serial, find_device_by_serial, partitions, try_find_partitions,
};
use crate::error::{AddonError, AddonErrorView};
use crate::host::{
    Action, ActionView, Command, CommandView, DirEntry, MountCall, MountCallView, MountFlags,
    Reply, ReplyView,
};
use crate::verity::{open_args, verity_args, VerityParams, VerityParamsView};

verus! {

pub const CMDLINE: &'static str = "/proc/cmdline";

pub const SYS_BLOCK: &'static str = "/sys/block";

pub const MOUNT_BASE: &'static str = "/run/kata-addons";

pub const VERITYSETUP: &'static str = "/usr/sbin/veritysetup";

/// Prefix for the virtio-blk serial and the dm-verity device-mapper target.
pub const ADDON_PREFIX: &'static str = "addon-";

/// The serial of the block device of an addon, which is also the name of its
/// device-mapper target.
pub open spec fn serial_of(name: Seq<char>) -> Seq<char> {
    ADDON_PREFIX@ + name
}

/// The directory of a block device below `/sys/block`.
pub open spec fn sys_dir(dev: Seq<char>) -> Seq<char> {
    SYS_BLOCK@ + "/"@ + dev
}

/// The verified device of an addon.
pub open spec fn mapper_of(name: Seq<char>) -> Seq<char> {
    "/dev/mapper/"@ + serial_of(name)
}

/// The directory on which an addon is mounted.
pub open spec fn target_of(name: Seq<char>) -> Seq<char> {
    MOUNT_BASE@ + "/"@ + name
}

/// The call of `veritysetup` that opens the partitions of an addon.
pub open spec fn open_command(
    name: Seq<char>,
    params: VerityParamsView,
    data: Seq<char>,
    hash: Seq<char>,
) -> CommandView {
    CommandView {
        program: VERITYSETUP@,
        args: open_args(serial_of(name), data, hash, params),
    }
}

/// Read-only, without set-user-ID and devices. Addons ship executables (e.g.
/// attestation-agent), which may be run.
pub open spec fn addon_flags() -> MountFlags {
    MountFlags { read_only: true, no_suid: true, no_dev: true, no_exec: false, bind: false }
}

/// The mount of the verified device of an addon.
pub open spec fn addon_mount(name: Seq<char>) -> MountCallView {
    MountCallView {
        source: mapper_of(name),
        target: target_of(name),
        fstype: Some("erofs"@),
        flags: addon_flags(),
    }
}

fn serial(name: &str) -> (res: String)
    ensures
        res@ == serial_of(name@),
{
    ADDON_PREFIX.to_owned().concat(name)
}

fn mapper(name: &str) -> (res: String)
    ensures
        res@ == mapper_of(name@),
{
    "/dev/mapper/".to_owned().concat(serial(name).as_str())
}

fn target(name: &str) -> (res: String)
    ensures
        res@ == target_of(name@),
{
    MOUNT_BASE.to_owned().concat("/").concat(name)
}

fn device_dir(dev: &str) -> (res: String)
    ensures
        res@ == sys_dir(dev@),
{
    SYS_BLOCK.to_owned().concat("/").concat(dev)
}

/// The mounting of one addon: how far it has come.
#[derive(Debug)]
pub enum MountAddon {
    /// The device with the serial of the addon is looked for.
    FindDevice { name: String, params: VerityParams },
    /// The partitions of the device are looked for.
    FindPartitions { name: String, params: VerityParams, dev: String },
    /// The partitions are opened as a verity device.
    OpenVerity { name: String, params: VerityParams, data: String, hash: String },
    /// The mount point is created.
    CreateTarget { name: String },
    /// The verity device is mounted.
    Mount { name: String },
    /// The addon is mounted.
    Mounted,
    /// The addon cannot be mounted.
    Panicked { message: String },
}

/// The mathematical counterpart of [`MountAddon`].
#[verifier::ext_equal]
pub enum MountAddonView {
    FindDevice { name: Seq<char>, params: VerityParamsView },
    FindPartitions { name: Seq<char>, params: VerityParamsView, dev: Seq<char> },
    OpenVerity { name: Seq<char>, params: VerityParamsView, data: Seq<char>, hash: Seq<char> },
    CreateTarget { name: Seq<char> },
    Mount { name: Seq<char> },
    Mounted,
    Panicked { message: Seq<char> },
}

impl View for MountAddon {
    type V = MountAddonView;

    open spec fn view(&self) -> MountAddonView {
        match *self {
            MountAddon::FindDevice { name, params } => MountAddonView::FindDevice {
                name: name@,
                params: params@,
            },
            MountAddon::FindPartitions { name, params, dev } => MountAddonView::FindPartitions {
                name: name@,
                params: params@,
                dev: dev@,
            },
            MountAddon::OpenVerity { name, params, data, hash } => MountAddonView::OpenVerity {
                name: name@,
                params: params@,
                data: data@,
                hash: hash@,
            },
            MountAddon::CreateTarget { name } => MountAddonView::CreateTarget { name: name@ },
            MountAddon::Mount { name } => MountAddonView::Mount { name: name@ },
            MountAddon::Mounted => MountAddonView::Mounted,
            MountAddon::Panicked { message } => MountAddonView::Panicked { message: message@ },
        }
    }
}

impl MountAddonView {
    /// What is to be done in this state.
    pub open spec fn pending(self) -> ActionView {
        match self {
            MountAddonView::FindDevice { .. } => ActionView::ScanDir {
                path: SYS_BLOCK@,
                attribute: "serial"@,
            },
            MountAddonView::FindPartitions { dev, .. } => ActionView::ScanDir {
                path: sys_dir(dev),
                attribute: "partition"@,
            },
            MountAddonView::OpenVerity { name, params, data, hash } => ActionView::Run {
                command: open_command(name, params, data, hash),
            },
            MountAddonView::CreateTarget { name } => ActionView::CreateDirAll {
                path: target_of(name),
            },
            MountAddonView::Mount { name } => ActionView::Mount { call: addon_mount(name) },
            MountAddonView::Mounted => ActionView::Finish,
            MountAddonView::Panicked { message } => ActionView::Panic { message },
        }
    }

    /// The state once the device, if there is one, is known.
    pub open spec fn with_device(
        name: Seq<char>,
        params: VerityParamsView,
        found: Option<Seq<char>>,
    ) -> Self {
        match found {
            Some(dev) => MountAddonView::FindPartitions { name, params, dev },
            None => MountAddonView::Panicked {
                message: (AddonErrorView::NoDevice {
                    name,
                    serial: serial_of(name),
                }).message(),
            },
        }
    }

    /// The state after `reply`. A reply that does not answer the pending action
    /// changes nothing.
    pub open spec fn advance(self, reply: ReplyView) -> Self {
        match self {
            MountAddonView::FindDevice { name, params } => match reply {
                ReplyView::Entries(devices) => Self::with_device(
                    name,
                    params,
                    device_with_serial(devices, serial_of(name)),
                ),
                ReplyView::Failed => Self::with_device(name, params, None),
                _ => self,
            },
            MountAddonView::FindPartitions { name, params, dev } => match reply {
                ReplyView::Entries(entries) => match partitions(entries, dev) {
                    Ok((data, hash)) => MountAddonView::OpenVerity { name, params, data, hash },
                    Err(e) => MountAddonView::Panicked { message: e.message() },
                },
                ReplyView::Failed => MountAddonView::Panicked {
                    message: "read_dir "@ + sys_dir(dev),
                },
                _ => self,
            },
            MountAddonView::OpenVerity { name, .. } => match reply {
                ReplyView::Done => MountAddonView::CreateTarget { name },
                ReplyView::Failed => MountAddonView::Panicked { message: "run "@ + VERITYSETUP@ },
                _ => self,
            },
            MountAddonView::CreateTarget { name } => match reply {
                ReplyView::Done => MountAddonView::Mount { name },
                ReplyView::Failed => MountAddonView::Panicked {
                    message: "create_dir_all "@ + target_of(name),
                },
                _ => self,
            },
            MountAddonView::Mount { name } => match reply {
                ReplyView::Done => MountAddonView::Mounted,
                ReplyView::Failed => MountAddonView::Panicked {
                    message: "mount addon "@ + name + " ("@ + mapper_of(name) + ") on "@
                        + target_of(name),
                },
                _ => self,
            },
            MountAddonView::Mounted => self,
            MountAddonView::Panicked { .. } => self,
        }
    }
}

/// Discover, verity-open and mount a single addon.
pub fn mount_addon(name: &str, params: &VerityParams) -> (res: MountAddon)
    ensures
        res@ == (MountAddonView::FindDevice { name: name@, params: params@ }),
{
    MountAddon::FindDevice { name: name.to_owned(), params: params.clone() }
}

impl MountAddon {
    /// What is to be done in this state.
    pub fn pending(&self) -> (res: Action)
        ensures
            res@ == self@.pending(),
    {
        match self {
            MountAddon::FindDevice { .. } => Action::ScanDir {
                path: SYS_BLOCK.to_owned(),
                attribute: "serial".to_owned(),
            },
            MountAddon::FindPartitions { dev, .. } => Action::ScanDir {
                path: device_dir(dev.as_str()),
                attribute: "partition".to_owned(),
            },
            MountAddon::OpenVerity { name, params, data, hash } => Action::Run {
                command: Command {
                    program: VERITYSETUP.to_owned(),
                    args: verity_args(
                        serial(name.as_str()).as_str(),
                        data.as_str(),
                        hash.as_str(),
                        params,
                    ),
                },
            },
            MountAddon::CreateTarget { name } => Action::CreateDirAll {
                path: target(name.as_str()),
            },
            MountAddon::Mount { name } => Action::Mount {
                call: MountCall {
                    source: mapper(name.as_str()),
                    target: target(name.as_str()),
                    fstype: Some("erofs".to_owned()),
                    flags: MountFlags {
                        read_only: true,
                        no_suid: true,
                        no_dev: true,
                        no_exec: false,
                        bind: false,
                    },
                },
            },
            MountAddon::Mounted => Action::Finish,
            MountAddon::Panicked { message } => Action::Panic { message: message.clone() },
        }
    }

    /// The state once the listing of the devices, if there is one, is known.
    fn with_devices(name: String, params: VerityParams, devices: Option<&Vec<DirEntry>>) -> (res:
        Self)
        ensures
            res@ == MountAddonView::with_device(
                name@,
                params@,
                match devices {
                    Some(devices) => device_with_serial(
                        devices.deep_view(),
                        serial_of(name@),
                    ),
                    None => None,
                },
            ),
    {
        let serial: String = serial(name.as_str());
        match find_device_by_serial(devices, serial.as_str()) {
            Some(dev) => MountAddon::FindPartitions { name, params, dev },
            None => MountAddon::Panicked {
                message: (AddonError::NoDevice { name, serial }).message(),
            },
        }
    }

    /// The state after `reply`. A reply that does not answer the pending action
    /// changes nothing.
    pub fn advance(self, reply: Reply) -> (res: Self)
        ensures
            res@ == self@.advance(reply@),
    {
        match self {
            MountAddon::FindDevice { name, params } => match reply {
                Reply::Entries(devices) => Self::with_devices(name, params, Some(&devices)),
                Reply::Failed => Self::with_devices(name, params, None),
                _ => MountAddon::FindDevice { name, params },
            },
            MountAddon::FindPartitions { name, params, dev } => match reply {
                Reply::Entries(entries) => match try_find_partitions(&entries, dev.as_str()) {
                    Ok((data, hash)) => MountAddon::OpenVerity { name, params, data, hash },
                    Err(e) => MountAddon::Panicked { message: e.message() },
                },
                Reply::Failed => MountAddon::Panicked {
                    message: "read_dir ".to_owned().concat(device_dir(dev.as_str()).as_str()),
                },
                _ => MountAddon::FindPartitions { name, params, dev },
            },
            MountAddon::OpenVerity { name, params, data, hash } => match reply {
                Reply::Done => MountAddon::CreateTarget { name },
                Reply::Failed => MountAddon::Panicked {
                    message: "run ".to_owned().concat(VERITYSETUP),
                },
                _ => MountAddon::OpenVerity { name, params, data, hash },
            },
            MountAddon::CreateTarget { name } => match reply {
                Reply::Done => MountAddon::Mount { name },
                Reply::Failed => MountAddon::Panicked {
                    message: "create_dir_all ".to_owned().concat(target(name.as_str()).as_str()),
                },
                _ => MountAddon::CreateTarget { name },
            },
            MountAddon::Mount { name } => match reply {
                Reply::Done => MountAddon::Mounted,
                Reply::Failed => MountAddon::Panicked {
                    message: "mount addon ".to_owned().concat(name.as_str()).concat(" (").concat(
                        mapper(name.as_str()).as_str(),
                    ).concat(") on ").concat(target(name.as_str()).as_str()),
                },
                _ => MountAddon::Mount { name },
            },
            MountAddon::Mounted => MountAddon::Mounted,
            MountAddon::Panicked { message } => MountAddon::Panicked { message },
        }
    }
}

/// The mounting of all declared addons: how far it has come.
#[derive(Debug)]
pub enum MountAll {
    /// The kernel command line is read.
    ReadCmdline,
    /// An addon is mounted; the others follow in order.
    Mounting { current: MountAddon, rest: Vec<(String, VerityParams)> },
    /// Every declared addon is mounted.
    Finished,
    /// Some addon cannot be mounted.
    Panicked { message: String },
}

/// The mathematical counterpart of [`MountAll`].
#[verifier::ext_equal]
pub enum MountAllView {
    ReadCmdline,
    Mounting { current: MountAddonView, rest: Seq<(Seq<char>, VerityParamsView)> },
    Finished,
    Panicked { message: Seq<char> },
}

impl View for MountAll {
    type V = MountAllView;

    open spec fn view(&self) -> MountAllView {
        match *self {
            MountAll::ReadCmdline => MountAllView::ReadCmdline,
            MountAll::Mounting { current, rest } => MountAllView::Mounting {
                current: current@,
                rest: rest.deep_view(),
            },
            MountAll::Finished => MountAllView::Finished,
            MountAll::Panicked { message } => MountAllView::Panicked { message: message@ },
        }
    }
}

impl MountAllView {
    /// The state in which `addons` are still to be mounted.
    pub open spec fn to_mount(addons: Seq<(Seq<char>, VerityParamsView)>) -> Self {
        if addons.len() == 0 {
            MountAllView::Finished
        } else {
            MountAllView::Mounting {
                current: MountAddonView::FindDevice { name: addons[0].0, params: addons[0].1 },
                rest: addons.skip(1),
            }
        }
    }

    /// What is to be done in this state.
    pub open spec fn pending(self) -> ActionView {
        match self {
            MountAllView::ReadCmdline => ActionView::ReadFile { path: CMDLINE@ },
            MountAllView::Mounting { current, .. } => current.pending(),
            MountAllView::Finished => ActionView::Finish,
            MountAllView::Panicked { message } => ActionView::Panic { message },
        }
    }

    /// The state after `reply`. A reply that does not answer the pending action
    /// changes nothing.
    pub open spec fn advance(self, reply: ReplyView) -> Self {
        match self {
            MountAllView::ReadCmdline => match reply {
                ReplyView::Text(cmdline) => match addons(cmdline) {
                    Ok(addons) => Self::to_mount(addons),
                    Err(e) => MountAllView::Panicked { message: e.message() },
                },
                ReplyView::Failed => MountAllView::Panicked { message: "read "@ + CMDLINE@ },
                _ => self,
            },
            MountAllView::Mounting { current, rest } => match current.advance(reply) {
                MountAddonView::Mounted => Self::to_mount(rest),
                MountAddonView::Panicked { message } => MountAllView::Panicked { message },
                next => MountAllView::Mounting { current: next, rest },
            },
            MountAllView::Finished => self,
            MountAllView::Panicked { .. } => self,
        }
    }
}

/// Mount every addon declared on the kernel command line. No-op when no
/// `kata.addon.*.verity_params` entries are present (non-composable images).
pub fn mount_all() -> (res: MountAll)
    ensures
        res@ == MountAllView::ReadCmdline,
{
    MountAll::ReadCmdline
}

impl MountAll {
    /// The state in which `addons` are still to be mounted.
    fn to_mount(addons: Vec<(String, VerityParams)>) -> (res: Self)
        ensures
            res@ == MountAllView::to_mount(addons.deep_view()),
    {
        let mut rest: Vec<(String, VerityParams)> = addons;
        if rest.len() == 0 {
            MountAll::Finished
        } else {
            let ghost all = rest.deep_view();
            let (name, params) = rest.remove(0);
            assert(all[0] == (name@, params@));
            assert(rest.deep_view() =~= all.skip(1));
            MountAll::Mounting { current: mount_addon(name.as_str(), &params), rest }
        }
    }

    /// What is to be done in this state.
    pub fn pending(&self) -> (res: Action)
        ensures
            res@ == self@.pending(),
    {
        match self {
            MountAll::ReadCmdline => Action::ReadFile { path: CMDLINE.to_owned() },
            MountAll::Mounting { current, .. } => current.pending(),
            MountAll::Finished => Action::Finish,
            MountAll::Panicked { message } => Action::Panic { message: message.clone() },
        }
    }

    /// The state after `reply`. A reply that does not answer the pending action
    /// changes nothing.
    pub fn advance(self, reply: Reply) -> (res: Self)
        ensures
            res@ == self@.advance(reply@),
    {
        match self {
            MountAll::ReadCmdline => match reply {
                Reply::Text(cmdline) => match try_parse_addons(cmdline.as_str()) {
                    Ok(addons) => Self::to_mount(addons),
                    Err(e) => MountAll::Panicked { message: e.message() },
                },
                Reply::Failed => MountAll::Panicked { message: "read ".to_owned().concat(CMDLINE) },
                _ => MountAll::ReadCmdline,
            },
            MountAll::Mounting { current, rest } => match current.advance(reply) {
                MountAddon::Mounted => Self::to_mount(rest),
                MountAddon::Panicked { message } => MountAll::Panicked { message },
                next => MountAll::Mounting { current: next, rest },
            },
            MountAll::Finished => MountAll::Finished,
            MountAll::Panicked { message } => MountAll::Panicked { message },
        }
    }
}

} // verus!
