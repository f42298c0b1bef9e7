//! Laws of the vocabulary: the mathematical counterparts lose nothing.

use vstd::prelude::*;
use crate::addon::{MountAddon, MountAddonView, MountAll, MountAllView};
use crate::error::{AddonError, AddonErrorView};
use crate::gpu::{Setup, SetupView};
use crate::host::{Action, ActionView, Command, DirEntry, MountCall, Reply, ReplyView};
use crate::verity::VerityParams;

verus! {

/// A command is its program and its arguments, each as it stands.
pub proof fn law_command_view(c: Command)
    ensures
        c@.program == c.program@,
        c@.args.len() == c.args@.len(),
        forall|i: int| 0 <= i < c.args@.len() ==> #[trigger] c@.args[i] == c.args@[i]@,
{
}

/// A mount is what, where, as what and how.
pub proof fn law_mount_call_view(c: MountCall)
    ensures
        c@.source == c.source@,
        c@.target == c.target@,
        c@.fstype is Some <==> c.fstype is Some,
        c.fstype is Some ==> c@.fstype->0 == c.fstype->0@,
        c@.flags == c.flags,
{
}

/// An entry is its name and what can be read of it.
pub proof fn law_dir_entry_view(e: DirEntry)
    ensures
        e@.name == e.name@,
        e@.content is Some <==> e.content is Some,
        e.content is Some ==> e@.content->0 == e.content->0@,
        e.deep_view() == e@,
{
}

/// Parameters are their five values.
pub proof fn law_verity_params_view(p: VerityParams)
    ensures
        p@.root_hash == p.root_hash@,
        p@.salt == p.salt@,
        p@.data_blocks == p.data_blocks,
        p@.data_block_size == p.data_block_size,
        p@.hash_block_size == p.hash_block_size,
        p.deep_view() == p@,
{
}

/// An action is of one kind, with the values that belong to it.
pub proof fn law_action_view(a: Action)
    ensures
        match a {
            Action::ReadFile { path } => a@ == (ActionView::ReadFile { path: path@ }),
            Action::ProbeDir { path } => a@ == (ActionView::ProbeDir { path: path@ }),
            Action::ScanDir { path, attribute } => a@ == (ActionView::ScanDir {
                path: path@,
                attribute: attribute@,
            }),
            Action::Run { command } => a@ == (ActionView::Run { command: command@ }),
            Action::CreateDirAll { path } => a@ == (ActionView::CreateDirAll { path: path@ }),
            Action::SetEnv { key, value } => a@ == (ActionView::SetEnv {
                key: key@,
                value: value@,
            }),
            Action::Mount { call } => a@ == (ActionView::Mount { call: call@ }),
            Action::Finish => a@ is Finish,
            Action::Panic { message } => a@ == (ActionView::Panic { message: message@ }),
        },
{
}

/// A reply is of one kind, with the value that belongs to it.
pub proof fn law_reply_view(r: Reply)
    ensures
        match r {
            Reply::Text(text) => r@ == ReplyView::Text(text@),
            Reply::IsDir(b) => r@ == ReplyView::IsDir(b),
            Reply::Entries(entries) => {
                &&& r@ is Entries
                &&& r@->Entries_0.len() == entries@.len()
                &&& forall|i: int|
                    0 <= i < entries@.len() ==> #[trigger] r@->Entries_0[i] == entries@[i]@
            },
            Reply::Done => r@ is Done,
            Reply::Failed => r@ is Failed,
        },
{
}

/// A refusal is of one kind, with the values that belong to it.
pub proof fn law_error_view(e: AddonError)
    ensures
        match e {
            AddonError::InvalidNumber { name, field, value } => e@ == (
            AddonErrorView::InvalidNumber { name: name@, field: field@, value: value@ }),
            AddonError::MissingField { name, field } => e@ == (AddonErrorView::MissingField {
                name: name@,
                field: field@,
            }),
            AddonError::MissingOrZero { name, field } => e@ == (AddonErrorView::MissingOrZero {
                name: name@,
                field: field@,
            }),
            AddonError::NoDevice { name, serial } => e@ == (AddonErrorView::NoDevice {
                name: name@,
                serial: serial@,
            }),
            AddonError::MissingDataPartition { dev } => e@ == (
            AddonErrorView::MissingDataPartition { dev: dev@ }),
            AddonError::MissingHashPartition { dev } => e@ == (
            AddonErrorView::MissingHashPartition { dev: dev@ }),
        },
{
}

/// The mounting of an addon is in one state, with the values that belong to it.
pub proof fn law_mount_addon_view(m: MountAddon)
    ensures
        match m {
            MountAddon::FindDevice { name, params } => m@ == (MountAddonView::FindDevice {
                name: name@,
                params: params@,
            }),
            MountAddon::FindPartitions { name, params, dev } => m@ == (
            MountAddonView::FindPartitions { name: name@, params: params@, dev: dev@ }),
            MountAddon::OpenVerity { name, params, data, hash } => m@ == (
            MountAddonView::OpenVerity {
                name: name@,
                params: params@,
                data: data@,
                hash: hash@,
            }),
            MountAddon::CreateTarget { name } => m@ == (MountAddonView::CreateTarget {
                name: name@,
            }),
            MountAddon::Mount { name } => m@ == (MountAddonView::Mount { name: name@ }),
            MountAddon::Mounted => m@ is Mounted,
            MountAddon::Panicked { message } => m@ == (MountAddonView::Panicked {
                message: message@,
            }),
        },
{
}

/// The mounting of all addons is in one state, with the values that belong to it.
pub proof fn law_mount_all_view(m: MountAll)
    ensures
        match m {
            MountAll::ReadCmdline => m@ is ReadCmdline,
            MountAll::Mounting { current, rest } => {
                &&& m@ is Mounting
                &&& m@->current == current@
                &&& m@->rest.len() == rest@.len()
                &&& forall|i: int|
                    0 <= i < rest@.len() ==> #[trigger] m@->rest[i] == (rest@[i].0@, rest@[i].1@)
            },
            MountAll::Finished => m@ is Finished,
            MountAll::Panicked { message } => m@ == (MountAllView::Panicked { message: message@ }),
        },
{
}

/// The preparation is in one state.
pub proof fn law_setup_view(s: Setup)
    ensures
        match s {
            Setup::ProbeAddon => s@ is ProbeAddon,
            Setup::SetLibraryPath => s@ is SetLibraryPath,
            Setup::ProbeFirmware => s@ is ProbeFirmware,
            Setup::BindFirmware => s@ is BindFirmware,
            Setup::Finished => s@ is Finished,
            Setup::Panicked { message } => s@ == (SetupView::Panicked { message: message@ }),
        },
{
}

/// Reading gives a text, probing a yes or no, scanning entries, and all else plain
/// success; what can fail may fail; and to an end there is no reply.
pub proof fn law_answers(action: ActionView, reply: ReplyView)
    ensures
        reply is Text && reply.answers(action) <==> reply is Text && action is ReadFile,
        reply is IsDir && reply.answers(action) <==> reply is IsDir && action is ProbeDir,
        reply is Entries && reply.answers(action) <==> reply is Entries && action is ScanDir,
        reply is Done && reply.answers(action) <==> reply is Done && (action is Run
            || action is CreateDirAll || action is SetEnv || action is Mount),
        reply is Failed && reply.answers(action) <==> reply is Failed && (action is ReadFile
            || action is ScanDir || action is Run || action is CreateDirAll || action is Mount),
        action is Finish || action is Panic ==> !reply.answers(action),
{
}

} // verus!
