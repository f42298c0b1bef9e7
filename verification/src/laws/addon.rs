//! Laws of mounting: what has happened before an addon is mounted, and what has
//! been mounted in the end, whatever the machine replies.

use vstd::prelude::*;
use crate::addon::{
    addon_mount, mapper_of, open_command, serial_of, sys_dir, target_of, MountAddonView,
    MountAllView, ADDON_PREFIX, CMDLINE, MOUNT_BASE, SYS_BLOCK,
};
use crate::cmdline::{addons, declaration};
use crate::device::{device_with_serial, partitions};
use crate::error::AddonErrorView;
use crate::gpu::ROOT;
use crate::host::{ActionView, CommandView, DirEntryView, MountCallView, MountFlags, ReplyView};
use crate::laws::cmdline::law_no_declaration_no_addon;
use crate::laws::device::{
    carries, law_first_device_with_serial, law_last_partition_with_number, law_partitions,
};
use crate::text::words;
use crate::verity::{open_args, VerityParamsView};

verus! {

/// An action that was asked for, with the reply that answered it.
pub type Answered = (ActionView, ReplyView);

/// The mounting of the addon `name` after `replies`.
pub open spec fn addon_after(
    name: Seq<char>,
    params: VerityParamsView,
    replies: Seq<ReplyView>,
) -> MountAddonView
    decreases replies.len(),
{
    if replies.len() == 0 {
        MountAddonView::FindDevice { name, params }
    } else {
        addon_after(name, params, replies.drop_last()).advance(replies.last())
    }
}

/// `log`, and the exchange of `reply` for `action` if that was one.
pub open spec fn logged(log: Seq<Answered>, action: ActionView, reply: ReplyView) -> Seq<Answered> {
    if reply.answers(action) {
        log.push((action, reply))
    } else {
        log
    }
}

/// What was asked and answered in the mounting of the addon `name`.
pub open spec fn addon_log(
    name: Seq<char>,
    params: VerityParamsView,
    replies: Seq<ReplyView>,
) -> Seq<Answered>
    decreases replies.len(),
{
    if replies.len() == 0 {
        Seq::empty()
    } else {
        let before = replies.drop_last();
        logged(
            addon_log(name, params, before),
            addon_after(name, params, before).pending(),
            replies.last(),
        )
    }
}

/// The block devices were listed, and one carries the serial of the addon.
pub open spec fn device_found(name: Seq<char>, step: Answered) -> bool {
    &&& step.0 == (ActionView::ScanDir { path: SYS_BLOCK@, attribute: "serial"@ })
    &&& step.1 is Entries
    &&& device_with_serial(step.1->Entries_0, serial_of(name)) is Some
}

/// The device that was found.
pub open spec fn device_of(name: Seq<char>, step: Answered) -> Seq<char> {
    device_with_serial(step.1->Entries_0, serial_of(name))->0
}

/// The directory of the device was listed, and holds both partitions.
pub open spec fn partitions_found(dev: Seq<char>, step: Answered) -> bool {
    &&& step.0 == (ActionView::ScanDir { path: sys_dir(dev), attribute: "partition"@ })
    &&& step.1 is Entries
    &&& partitions(step.1->Entries_0, dev) is Ok
}

/// The partitions that were found.
pub open spec fn partitions_of(dev: Seq<char>, step: Answered) -> (Seq<char>, Seq<char>) {
    partitions(step.1->Entries_0, dev)->Ok_0
}

/// The device with the serial of the addon was found, and then its partitions.
pub open spec fn located(name: Seq<char>, log: Seq<Answered>) -> bool {
    &&& log.len() >= 2
    &&& device_found(name, log[0])
    &&& partitions_found(device_of(name, log[0]), log[1])
}

/// The device with the serial of the addon was found, then its partitions, and
/// then `veritysetup` opened these with the parameters of the addon.
pub open spec fn verified(name: Seq<char>, params: VerityParamsView, log: Seq<Answered>) -> bool {
    &&& log.len() >= 3
    &&& located(name, log)
    &&& {
        let (data, hash) = partitions_of(device_of(name, log[0]), log[1]);
        log[2] == (
            ActionView::Run { command: open_command(name, params, data, hash) },
            ReplyView::Done,
        )
    }
}

/// The addon was verified, and its mount point was created.
pub open spec fn prepared(name: Seq<char>, params: VerityParamsView, log: Seq<Answered>) -> bool {
    &&& log.len() >= 4
    &&& verified(name, params, log)
    &&& log[3] == (ActionView::CreateDirAll { path: target_of(name) }, ReplyView::Done)
}

/// The addon was verified, its mount point was created, and it was mounted there;
/// and nothing else was done.
pub open spec fn mounted(name: Seq<char>, params: VerityParamsView, log: Seq<Answered>) -> bool {
    &&& log.len() == 5
    &&& prepared(name, params, log)
    &&& log[4] == (ActionView::Mount { call: addon_mount(name) }, ReplyView::Done)
}

/// What a state says of the exchanges that led to it.
pub open spec fn fits(
    state: MountAddonView,
    name: Seq<char>,
    params: VerityParamsView,
    log: Seq<Answered>,
) -> bool {
    match state {
        MountAddonView::FindDevice { name: n, params: p } => {
            &&& n == name
            &&& p == params
            &&& log.len() == 0
        },
        MountAddonView::FindPartitions { name: n, params: p, dev } => {
            &&& n == name
            &&& p == params
            &&& log.len() == 1
            &&& device_found(name, log[0])
            &&& dev == device_of(name, log[0])
        },
        MountAddonView::OpenVerity { name: n, params: p, data, hash } => {
            &&& n == name
            &&& p == params
            &&& log.len() == 2
            &&& located(name, log)
            &&& (data, hash) == partitions_of(device_of(name, log[0]), log[1])
        },
        MountAddonView::CreateTarget { name: n } => {
            &&& n == name
            &&& log.len() == 3
            &&& verified(name, params, log)
        },
        MountAddonView::Mount { name: n } => {
            &&& n == name
            &&& log.len() == 4
            &&& prepared(name, params, log)
        },
        MountAddonView::Mounted => mounted(name, params, log),
        MountAddonView::Panicked { .. } => 1 <= log.len() <= 5,
    }
}

proof fn lemma_fits_step(
    state: MountAddonView,
    name: Seq<char>,
    params: VerityParamsView,
    log: Seq<Answered>,
    reply: ReplyView,
)
    requires
        fits(state, name, params, log),
    ensures
        fits(state.advance(reply), name, params, logged(log, state.pending(), reply)),
{
}

proof fn lemma_addon_fits(name: Seq<char>, params: VerityParamsView, replies: Seq<ReplyView>)
    ensures
        fits(
            addon_after(name, params, replies),
            name,
            params,
            addon_log(name, params, replies),
        ),
    decreases replies.len(),
{
    if replies.len() > 0 {
        let before = replies.drop_last();
        lemma_addon_fits(name, params, before);
        lemma_fits_step(
            addon_after(name, params, before),
            name,
            params,
            addon_log(name, params, before),
            replies.last(),
        );
    }
}

/// An addon is mounted only once the partitions of the device with its serial were
/// opened by dm-verity with its own parameters, and only what was so opened is
/// mounted.
pub proof fn law_mounted_only_if_verified(
    name: Seq<char>,
    params: VerityParamsView,
    replies: Seq<ReplyView>,
)
    ensures
        addon_after(name, params, replies).pending() is Mount ==> {
            &&& addon_after(name, params, replies).pending() == (ActionView::Mount {
                call: addon_mount(name),
            })
            &&& addon_log(name, params, replies).len() == 4
            &&& prepared(name, params, addon_log(name, params, replies))
        },
        addon_after(name, params, replies) is Mounted ==> mounted(
            name,
            params,
            addon_log(name, params, replies),
        ),
{
    lemma_addon_fits(name, params, replies);
}

/// Whatever fails in the mounting of an addon is fatal.
pub proof fn law_failure_is_fatal(state: MountAddonView)
    requires
        !(state.pending() is Finish),
        !(state.pending() is Panic),
    ensures
        state.advance(ReplyView::Failed) is Panicked,
{
}

/// A mounting that is over, well or badly, stays as it is.
pub proof fn law_end_is_final(state: MountAddonView, reply: ReplyView)
    requires
        state.pending() is Finish || state.pending() is Panic,
    ensures
        state.advance(reply) == state,
{
}

/// A reply that does not answer the pending action changes nothing.
pub proof fn law_stray_reply_ignored(state: MountAddonView, reply: ReplyView)
    requires
        !reply.answers(state.pending()),
    ensures
        state.advance(reply) == state,
{
}

/// The number of exchanges that a mounting has before it, at most.
pub open spec fn exchanges_left(state: MountAddonView) -> nat {
    match state {
        MountAddonView::FindDevice { .. } => 5,
        MountAddonView::FindPartitions { .. } => 4,
        MountAddonView::OpenVerity { .. } => 3,
        MountAddonView::CreateTarget { .. } => 2,
        MountAddonView::Mount { .. } => 1,
        MountAddonView::Mounted => 0,
        MountAddonView::Panicked { .. } => 0,
    }
}

/// Every answer brings a mounting closer to its end.
pub proof fn law_answer_is_progress(state: MountAddonView, reply: ReplyView)
    requires
        reply.answers(state.pending()),
    ensures
        exchanges_left(state.advance(reply)) < exchanges_left(state),
{
}

/// The mounting of all addons after `replies`.
pub open spec fn all_after(replies: Seq<ReplyView>) -> MountAllView
    decreases replies.len(),
{
    if replies.len() == 0 {
        MountAllView::ReadCmdline
    } else {
        all_after(replies.drop_last()).advance(replies.last())
    }
}

/// What was asked and answered in the mounting of all addons.
pub open spec fn all_log(replies: Seq<ReplyView>) -> Seq<Answered>
    decreases replies.len(),
{
    if replies.len() == 0 {
        Seq::empty()
    } else {
        let before = replies.drop_last();
        logged(all_log(before), all_after(before).pending(), replies.last())
    }
}

/// The kernel command line was read first.
pub open spec fn cmdline_read(log: Seq<Answered>) -> bool {
    &&& log.len() >= 1
    &&& log[0].0 == (ActionView::ReadFile { path: CMDLINE@ })
    &&& log[0].1 is Text
}

/// The addons that the command line declares.
pub open spec fn declared(log: Seq<Answered>) -> Seq<(Seq<char>, VerityParamsView)> {
    addons(log[0].1->Text_0)->Ok_0
}

/// The exchanges about the addon with the index `k`, the `n` first of them.
pub open spec fn part(log: Seq<Answered>, k: int, n: int) -> Seq<Answered> {
    log.subrange(1 + 5 * k, 1 + 5 * k + n)
}

/// The first `m` declared addons were mounted, one after the other.
pub open spec fn first_mounted(log: Seq<Answered>, m: int) -> bool {
    &&& cmdline_read(log)
    &&& addons(log[0].1->Text_0) is Ok
    &&& 0 <= m <= declared(log).len()
    &&& log.len() >= 1 + 5 * m
    &&& forall|k: int|
        0 <= k < m ==> mounted(declared(log)[k].0, declared(log)[k].1, #[trigger] part(log, k, 5))
}

/// What a state says of the exchanges that led to it.
pub open spec fn all_fits(state: MountAllView, log: Seq<Answered>) -> bool {
    match state {
        MountAllView::ReadCmdline => log.len() == 0,
        MountAllView::Mounting { current, rest } => {
            let m = declared(log).len() - 1 - rest.len();
            &&& first_mounted(log, m)
            &&& rest == declared(log).skip(m + 1)
            &&& !current.pending().terminal()
            &&& fits(
                current,
                declared(log)[m].0,
                declared(log)[m].1,
                part(log, m, log.len() - 1 - 5 * m),
            )
        },
        MountAllView::Finished => {
            &&& first_mounted(log, declared(log).len() as int)
            &&& log.len() == 1 + 5 * declared(log).len()
        },
        MountAllView::Panicked { .. } => {
            &&& log.len() >= 1
            &&& log.len() > 1 ==> {
                &&& cmdline_read(log)
                &&& addons(log[0].1->Text_0) is Ok
                &&& log.len() <= 1 + 5 * declared(log).len()
            }
        },
    }
}

proof fn lemma_to_mount(log: Seq<Answered>, m: int)
    requires
        first_mounted(log, m),
        log.len() == 1 + 5 * m,
    ensures
        all_fits(MountAllView::to_mount(declared(log).skip(m)), log),
{
    let rest = declared(log).skip(m);
    if rest.len() > 0 {
        assert(rest[0] == declared(log)[m]);
        assert(rest.skip(1) =~= declared(log).skip(m + 1));
        assert(part(log, m, 0).len() == 0);
    }
}

proof fn lemma_first_mounted_grows(log: Seq<Answered>, x: Answered, m: int)
    requires
        first_mounted(log, m),
    ensures
        first_mounted(log.push(x), m),
        declared(log.push(x)) == declared(log),
{
    let longer = log.push(x);
    assert(longer[0] == log[0]);
    assert forall|k: int| 0 <= k < m implies mounted(
        declared(longer)[k].0,
        declared(longer)[k].1,
        #[trigger] part(longer, k, 5),
    ) by {
        assert(part(longer, k, 5) =~= part(log, k, 5));
    }
}

proof fn lemma_all_fits_step(state: MountAllView, log: Seq<Answered>, reply: ReplyView)
    requires
        all_fits(state, log),
    ensures
        all_fits(state.advance(reply), logged(log, state.pending(), reply)),
{
    let next = logged(log, state.pending(), reply);
    match state {
        MountAllView::ReadCmdline => {
            if reply is Text {
                assert(next[0] == (state.pending(), reply));
                if addons(reply->Text_0) is Ok {
                    assert(declared(next).skip(0) =~= declared(next));
                    lemma_to_mount(next, 0);
                }
            }
        },
        MountAllView::Mounting { current, rest } => {
            let m = declared(log).len() - 1 - rest.len();
            let n = log.len() - 1 - 5 * m;
            let (name, params) = declared(log)[m];
            lemma_fits_step(current, name, params, part(log, m, n), reply);
            if reply.answers(current.pending()) {
                let x = (current.pending(), reply);
                lemma_first_mounted_grows(log, x, m);
                assert(part(next, m, n + 1) =~= part(log, m, n).push(x));
                if current.advance(reply) is Mounted {
                    assert(first_mounted(next, m + 1)) by {
                        assert forall|k: int| 0 <= k < m + 1 implies mounted(
                            declared(next)[k].0,
                            declared(next)[k].1,
                            #[trigger] part(next, k, 5),
                        ) by {
                            if k == m {
                                assert(n + 1 == 5);
                            }
                        }
                    }
                    lemma_to_mount(next, m + 1);
                }
            } else {
                law_stray_reply_ignored(current, reply);
            }
        },
        MountAllView::Finished => {},
        MountAllView::Panicked { .. } => {},
    }
}

proof fn lemma_all_fits(replies: Seq<ReplyView>)
    ensures
        all_fits(all_after(replies), all_log(replies)),
    decreases replies.len(),
{
    if replies.len() > 0 {
        let before = replies.drop_last();
        lemma_all_fits(before);
        lemma_all_fits_step(all_after(before), all_log(before), replies.last());
    }
}

/// When the mounting has finished, every addon that the command line declares was
/// verified and mounted, in the order of the declarations, and nothing else was
/// done.
pub proof fn law_every_declared_addon_mounted(replies: Seq<ReplyView>)
    requires
        all_after(replies) is Finished,
    ensures
        first_mounted(all_log(replies), declared(all_log(replies)).len() as int),
        all_log(replies).len() == 1 + 5 * declared(all_log(replies)).len(),
{
    lemma_all_fits(replies);
}

/// At the moment at which a mount is asked for, it is that of a declared addon,
/// this addon was verified with its own parameters, and the addons before it were
/// verified and mounted.
pub proof fn law_only_verified_addons_mounted(replies: Seq<ReplyView>)
    requires
        all_after(replies).pending() is Mount,
    ensures
        exists|k: int|
            {
                &&& #[trigger] first_mounted(all_log(replies), k)
                &&& k < declared(all_log(replies)).len()
                &&& all_after(replies).pending() == (ActionView::Mount {
                    call: addon_mount(declared(all_log(replies))[k].0),
                })
                &&& all_log(replies).len() == 5 + 5 * k
                &&& prepared(
                    declared(all_log(replies))[k].0,
                    declared(all_log(replies))[k].1,
                    part(all_log(replies), k, 4),
                )
            },
{
    lemma_all_fits(replies);
    let log = all_log(replies);
    if let MountAllView::Mounting { current, rest } = all_after(replies) {
        let m = declared(log).len() - 1 - rest.len();
        assert(first_mounted(log, m));
        assert(part(log, m, log.len() - 1 - 5 * m).len() == log.len() - 1 - 5 * m);
        assert(log.len() == 5 + 5 * m);
    }
}

/// The mounting asks for a bounded number of actions: the command line, and five
/// for each declared addon. Once all of these are answered it is over.
pub proof fn law_exchanges_bounded(replies: Seq<ReplyView>)
    ensures
        all_log(replies).len() >= 1 && all_log(replies).len() == 1 + 5 * declared(
            all_log(replies),
        ).len() ==> all_after(replies) is Finished || all_after(replies) is Panicked,
        all_log(replies).len() <= 1 || {
            &&& cmdline_read(all_log(replies))
            &&& addons(all_log(replies)[0].1->Text_0) is Ok
            &&& all_log(replies).len() <= 1 + 5 * declared(all_log(replies)).len()
        },
{
    lemma_all_fits(replies);
    let log = all_log(replies);
    if let MountAllView::Mounting { current, rest } = all_after(replies) {
        let m = declared(log).len() - 1 - rest.len();
        assert(part(log, m, log.len() - 1 - 5 * m).len() == log.len() - 1 - 5 * m);
    }
}

/// Whatever fails in the mounting of all addons is fatal.
pub proof fn law_any_failure_is_fatal(state: MountAllView)
    requires
        !(state.pending() is Finish),
        !(state.pending() is Panic),
    ensures
        state.advance(ReplyView::Failed) is Panicked,
{
    if let MountAllView::Mounting { current, .. } = state {
        law_failure_is_fatal(current);
    }
}

/// Once the mounting has finished or has panicked, no reply makes it do anything
/// more.
pub proof fn law_all_end_is_final(replies: Seq<ReplyView>, reply: ReplyView)
    requires
        all_after(replies).pending() is Finish || all_after(replies).pending() is Panic,
    ensures
        all_after(replies.push(reply)) == all_after(replies),
{
    lemma_all_fits(replies);
    assert(replies.push(reply).drop_last() =~= replies);
}

/// A reply that does not answer the pending action changes nothing.
pub proof fn law_all_stray_reply_ignored(replies: Seq<ReplyView>, reply: ReplyView)
    requires
        !reply.answers(all_after(replies).pending()),
    ensures
        all_after(replies.push(reply)) == all_after(replies),
{
    lemma_all_fits(replies);
    assert(replies.push(reply).drop_last() =~= replies);
    if let MountAllView::Mounting { current, .. } = all_after(replies) {
        law_stray_reply_ignored(current, reply);
    }
}

/// A single malformed declaration stops everything before any device is touched.
pub proof fn law_malformed_declaration_is_fatal(cmdline: Seq<char>)
    requires
        addons(cmdline) is Err,
    ensures
        MountAllView::ReadCmdline.advance(ReplyView::Text(cmdline)) == (MountAllView::Panicked {
            message: addons(cmdline)->Err_0.message(),
        }),
{
}

/// On a command line that declares no addon there is nothing to do.
pub proof fn law_no_addon_nothing_done(cmdline: Seq<char>)
    requires
        forall|i: int|
            0 <= i < words(cmdline).len() ==> declaration(#[trigger] words(cmdline)[i]) is None,
    ensures
        MountAllView::ReadCmdline.advance(ReplyView::Text(cmdline)) is Finished,
{
    law_no_declaration_no_addon(cmdline);
}

/// Addons are mounted read-only, without set-user-ID and devices, from their
/// verified device, below the common mount point; their programs may be run.
pub proof fn law_addons_mounted_read_only(name: Seq<char>)
    ensures
        addon_mount(name).flags.read_only,
        addon_mount(name).flags.no_suid,
        addon_mount(name).flags.no_dev,
        !addon_mount(name).flags.no_exec,
        addon_mount(name).fstype == Some("erofs"@),
        "/dev/mapper/"@.is_prefix_of(addon_mount(name).source),
        MOUNT_BASE@.is_prefix_of(addon_mount(name).target),
{
    assert(mapper_of(name).subrange(0, "/dev/mapper/"@.len() as int) =~= "/dev/mapper/"@);
    assert(target_of(name).subrange(0, MOUNT_BASE@.len() as int) =~= MOUNT_BASE@);
}

/// Addons with different names have different serials, verified devices and mount
/// points.
pub proof fn law_addons_do_not_collide(a: Seq<char>, b: Seq<char>)
    requires
        a != b,
    ensures
        serial_of(a) != serial_of(b),
        mapper_of(a) != mapper_of(b),
        target_of(a) != target_of(b),
{
    lemma_append_injective(ADDON_PREFIX@, a, b);
    lemma_append_injective("/dev/mapper/"@, serial_of(a), serial_of(b));
    lemma_append_injective(MOUNT_BASE@ + "/"@, a, b);
}

/// What is appended can be told from the whole.
pub proof fn lemma_append_injective(s: Seq<char>, a: Seq<char>, b: Seq<char>)
    requires
        a != b,
    ensures
        s + a != s + b,
{
    assert((s + a).skip(s.len() as int) =~= a);
    assert((s + b).skip(s.len() as int) =~= b);
}

/// The GPU components are looked for where the addon `gpu` is mounted.
pub proof fn law_gpu_root_is_mount_point()
    ensures
        target_of("gpu"@) == ROOT@,
{
    reveal_strlit("gpu");
    reveal_strlit("/");
    reveal_strlit("/run/kata-addons");
    reveal_strlit("/run/kata-addons/gpu");
    assert(target_of("gpu"@) =~= ROOT@);
}

/// The places that belong to an addon and to a block device.
pub proof fn law_places(name: Seq<char>, dev: Seq<char>)
    ensures
        serial_of(name) == "addon-"@ + name,
        mapper_of(name) == "/dev/mapper/addon-"@ + name,
        target_of(name) == "/run/kata-addons/"@ + name,
        sys_dir(dev) == "/sys/block/"@ + dev,
{
    reveal_strlit("/");
    reveal_strlit("addon-");
    reveal_strlit("/dev/mapper/");
    reveal_strlit("/dev/mapper/addon-");
    reveal_strlit("/run/kata-addons");
    reveal_strlit("/run/kata-addons/");
    reveal_strlit("/sys/block");
    reveal_strlit("/sys/block/");
    assert("/dev/mapper/addon-"@ =~= "/dev/mapper/"@ + "addon-"@);
    assert("/run/kata-addons/"@ =~= "/run/kata-addons"@ + "/"@);
    assert("/sys/block/"@ =~= "/sys/block"@ + "/"@);
    assert(mapper_of(name) =~= "/dev/mapper/addon-"@ + name);
    assert(target_of(name) =~= "/run/kata-addons/"@ + name);
    assert(sys_dir(dev) =~= "/sys/block/"@ + dev);
}

/// A verity device is opened by `veritysetup`, under the serial of the addon, with
/// the parameters of the addon.
pub proof fn law_open_command(
    name: Seq<char>,
    params: VerityParamsView,
    data: Seq<char>,
    hash: Seq<char>,
)
    ensures
        open_command(name, params, data, hash).program == "/usr/sbin/veritysetup"@,
        open_command(name, params, data, hash).args == open_args(
            "addon-"@ + name,
            data,
            hash,
            params,
        ),
{
}

/// What is asked for in each state of a mounting.
pub proof fn law_requests(
    name: Seq<char>,
    params: VerityParamsView,
    dev: Seq<char>,
    data: Seq<char>,
    hash: Seq<char>,
    message: Seq<char>,
)
    ensures
        (MountAddonView::FindDevice { name, params }).pending() == (ActionView::ScanDir {
            path: "/sys/block"@,
            attribute: "serial"@,
        }),
        (MountAddonView::FindPartitions { name, params, dev }).pending() == (ActionView::ScanDir {
            path: "/sys/block/"@ + dev,
            attribute: "partition"@,
        }),
        (MountAddonView::OpenVerity { name, params, data, hash }).pending() == (ActionView::Run {
            command: CommandView {
                program: "/usr/sbin/veritysetup"@,
                args: open_args("addon-"@ + name, data, hash, params),
            },
        }),
        (MountAddonView::CreateTarget { name }).pending() == (ActionView::CreateDirAll {
            path: "/run/kata-addons/"@ + name,
        }),
        (MountAddonView::Mount { name }).pending() == (ActionView::Mount {
            call: MountCallView {
                source: "/dev/mapper/addon-"@ + name,
                target: "/run/kata-addons/"@ + name,
                fstype: Some("erofs"@),
                flags: MountFlags {
                    read_only: true,
                    no_suid: true,
                    no_dev: true,
                    no_exec: false,
                    bind: false,
                },
            },
        }),
        MountAddonView::Mounted.pending() is Finish,
        (MountAddonView::Panicked { message }).pending() == (ActionView::Panic { message }),
{
    law_places(name, dev);
}

/// Whether some entry carries `value`.
pub open spec fn some_carries(entries: Seq<DirEntryView>, value: Seq<char>) -> bool {
    exists|i: int| 0 <= i < entries.len() && carries(#[trigger] entries[i], value)
}

/// The search for the device goes on with the first device that carries the serial
/// of the addon, and panics exactly if there is none.
pub proof fn law_device_reply(
    name: Seq<char>,
    params: VerityParamsView,
    devices: Seq<DirEntryView>,
    i: int,
)
    ensures
        ({
            let state = MountAddonView::FindDevice { name, params };
            &&& 0 <= i < devices.len() && carries(devices[i], "addon-"@ + name) && (forall|j: int|
                0 <= j < i ==> !carries(#[trigger] devices[j], "addon-"@ + name)) ==> state.advance(
                ReplyView::Entries(devices),
            ) == (MountAddonView::FindPartitions { name, params, dev: devices[i].name })
            &&& !some_carries(devices, "addon-"@ + name) ==> state.advance(
                ReplyView::Entries(devices),
            ) == (MountAddonView::Panicked {
                message: "addon "@ + name + ": no block device with serial "@ + ("addon-"@ + name),
            })
            &&& state.advance(ReplyView::Failed) == (MountAddonView::Panicked {
                message: "addon "@ + name + ": no block device with serial "@ + ("addon-"@ + name),
            })
        }),
{
    let serial = "addon-"@ + name;
    if 0 <= i < devices.len() && carries(devices[i], serial) && (forall|j: int|
        0 <= j < i ==> !carries(#[trigger] devices[j], serial)) {
        law_first_device_with_serial(devices, serial, devices[i].name);
    }
    if !some_carries(devices, serial) {
        law_first_device_with_serial(devices, serial, Seq::empty());
    }
}

/// The search for the partitions goes on with the last entry numbered 1 as the data
/// and the last one numbered 2 as the hash partition, and panics exactly if one of
/// them is missing.
pub proof fn law_partitions_reply(
    name: Seq<char>,
    params: VerityParamsView,
    dev: Seq<char>,
    entries: Seq<DirEntryView>,
    i: int,
    j: int,
)
    ensures
        ({
            let state = MountAddonView::FindPartitions { name, params, dev };
            let last_1 = 0 <= i < entries.len() && carries(entries[i], "1"@) && forall|k: int|
                i < k < entries.len() ==> !carries(#[trigger] entries[k], "1"@);
            let last_2 = 0 <= j < entries.len() && carries(entries[j], "2"@) && forall|k: int|
                j < k < entries.len() ==> !carries(#[trigger] entries[k], "2"@);
            &&& last_1 && last_2 ==> state.advance(ReplyView::Entries(entries)) == (
            MountAddonView::OpenVerity {
                name,
                params,
                data: "/dev/"@ + entries[i].name,
                hash: "/dev/"@ + entries[j].name,
            })
            &&& !some_carries(entries, "1"@) ==> state.advance(ReplyView::Entries(entries)) == (
            MountAddonView::Panicked {
                message: "addon device "@ + dev + ": missing data partition (1)"@,
            })
            &&& some_carries(entries, "1"@) && !some_carries(entries, "2"@) ==> state.advance(
                ReplyView::Entries(entries),
            ) == (MountAddonView::Panicked {
                message: "addon device "@ + dev + ": missing hash partition (2)"@,
            })
            &&& state.advance(ReplyView::Failed) == (MountAddonView::Panicked {
                message: "read_dir /sys/block/"@ + dev,
            })
        }),
{
    law_places(name, dev);
    reveal_strlit("read_dir ");
    reveal_strlit("/sys/block/");
    reveal_strlit("read_dir /sys/block/");
    assert("read_dir /sys/block/"@ =~= "read_dir "@ + "/sys/block/"@);
    assert("read_dir "@ + ("/sys/block/"@ + dev) =~= "read_dir /sys/block/"@ + dev);
    law_partitions(entries, dev);
    law_last_partition_with_number(entries, "1"@, Seq::empty());
    law_last_partition_with_number(entries, "2"@, Seq::empty());
    if 0 <= i < entries.len() && carries(entries[i], "1"@) && (forall|k: int|
        i < k < entries.len() ==> !carries(#[trigger] entries[k], "1"@)) {
        law_last_partition_with_number(entries, "1"@, "/dev/"@ + entries[i].name);
    }
    if 0 <= j < entries.len() && carries(entries[j], "2"@) && (forall|k: int|
        j < k < entries.len() ==> !carries(#[trigger] entries[k], "2"@)) {
        law_last_partition_with_number(entries, "2"@, "/dev/"@ + entries[j].name);
    }
}

/// Once an addon is opened its mount point is created, and then it is mounted; each
/// of these panics exactly if it fails, and says what failed.
pub proof fn law_later_replies(
    name: Seq<char>,
    params: VerityParamsView,
    data: Seq<char>,
    hash: Seq<char>,
)
    ensures
        ({
            let opening = MountAddonView::OpenVerity { name, params, data, hash };
            let creating = MountAddonView::CreateTarget { name };
            let mounting = MountAddonView::Mount { name };
            &&& opening.advance(ReplyView::Done) == creating
            &&& creating.advance(ReplyView::Done) == mounting
            &&& mounting.advance(ReplyView::Done) is Mounted
            &&& opening.advance(ReplyView::Failed) == (MountAddonView::Panicked {
                message: "run /usr/sbin/veritysetup"@,
            })
            &&& creating.advance(ReplyView::Failed) == (MountAddonView::Panicked {
                message: "create_dir_all /run/kata-addons/"@ + name,
            })
            &&& mounting.advance(ReplyView::Failed) == (MountAddonView::Panicked {
                message: "mount addon "@ + name + " (/dev/mapper/addon-"@ + name
                    + ") on /run/kata-addons/"@ + name,
            })
        }),
{
    law_places(name, name);
    reveal_strlit("run ");
    reveal_strlit("/usr/sbin/veritysetup");
    reveal_strlit("run /usr/sbin/veritysetup");
    assert("run /usr/sbin/veritysetup"@ =~= "run "@ + "/usr/sbin/veritysetup"@);
    reveal_strlit("create_dir_all ");
    reveal_strlit("/run/kata-addons/");
    reveal_strlit("create_dir_all /run/kata-addons/");
    assert("create_dir_all /run/kata-addons/"@ =~= "create_dir_all "@ + "/run/kata-addons/"@);
    assert("create_dir_all "@ + ("/run/kata-addons/"@ + name)
        =~= "create_dir_all /run/kata-addons/"@ + name);
    reveal_strlit(" (");
    reveal_strlit("/dev/mapper/addon-");
    reveal_strlit(" (/dev/mapper/addon-");
    assert(" (/dev/mapper/addon-"@ =~= " ("@ + "/dev/mapper/addon-"@);
    reveal_strlit(") on ");
    reveal_strlit(") on /run/kata-addons/");
    assert(") on /run/kata-addons/"@ =~= ") on "@ + "/run/kata-addons/"@);
    assert("mount addon "@ + name + " ("@ + ("/dev/mapper/addon-"@ + name) + ") on "@ + (
    "/run/kata-addons/"@ + name) =~= "mount addon "@ + name + " (/dev/mapper/addon-"@ + name
        + ") on /run/kata-addons/"@ + name);
}

/// Whether five replies grant an addon everything: a listing of the devices with
/// one that carries its serial, a listing of that device with both partitions, and
/// success in what follows.
pub open spec fn grants(name: Seq<char>, five: Seq<ReplyView>) -> bool {
    &&& five.len() == 5
    &&& five[0] is Entries && some_carries(five[0]->Entries_0, "addon-"@ + name)
    &&& five[1] is Entries && some_carries(five[1]->Entries_0, "1"@) && some_carries(
        five[1]->Entries_0,
        "2"@,
    )
    &&& five[2] is Done
    &&& five[3] is Done
    &&& five[4] is Done
}

/// The five replies about the addon with the index `k`.
pub open spec fn five_replies(replies: Seq<ReplyView>, k: int) -> Seq<ReplyView> {
    replies.subrange(1 + 5 * k, 6 + 5 * k)
}

/// The state in which the addon with the index `k` is next, or in which there is
/// none left.
pub open spec fn before_addon(
    list: Seq<(Seq<char>, VerityParamsView)>,
    k: int,
) -> MountAllView {
    if k < list.len() {
        MountAllView::Mounting {
            current: MountAddonView::FindDevice { name: list[k].0, params: list[k].1 },
            rest: list.skip(k + 1),
        }
    } else {
        MountAllView::Finished
    }
}

/// An addon that is granted everything is mounted.
pub proof fn law_granted_addon_mounted(
    name: Seq<char>,
    params: VerityParamsView,
    five: Seq<ReplyView>,
)
    requires
        grants(name, five),
    ensures
        (MountAddonView::FindDevice { name, params }).advance(five[0]) is FindPartitions,
        (MountAddonView::FindDevice { name, params }).advance(five[0]).advance(
            five[1],
        ) is OpenVerity,
        (MountAddonView::FindDevice { name, params }).advance(five[0]).advance(five[1]).advance(
            five[2],
        ) == (MountAddonView::CreateTarget { name }),
        (MountAddonView::FindDevice { name, params }).advance(five[0]).advance(five[1]).advance(
            five[2],
        ).advance(five[3]) == (MountAddonView::Mount { name }),
        (MountAddonView::FindDevice { name, params }).advance(five[0]).advance(five[1]).advance(
            five[2],
        ).advance(five[3]).advance(five[4]) is Mounted,
{
    let devices = five[0]->Entries_0;
    let entries = five[1]->Entries_0;
    law_first_device_with_serial(devices, "addon-"@ + name, Seq::empty());
    let first = (MountAddonView::FindDevice { name, params }).advance(five[0]);
    assert(first is FindPartitions);
    law_partitions(entries, first->FindPartitions_dev);
}

proof fn lemma_one_more_reply(replies: Seq<ReplyView>, n: int)
    requires
        0 <= n < replies.len(),
    ensures
        all_after(replies.take(n + 1)) == all_after(replies.take(n)).advance(replies[n]),
{
    assert(replies.take(n + 1).drop_last() =~= replies.take(n));
}

/// On a machine that grants everything every command line that is accepted leads to
/// the mounting of all its addons, one after the other and however many they are,
/// within five replies for each; none is left out and nothing panics.
pub proof fn law_granted_run_finishes(
    cmdline: Seq<char>,
    list: Seq<(Seq<char>, VerityParamsView)>,
    replies: Seq<ReplyView>,
)
    requires
        addons(cmdline) == Ok::<Seq<(Seq<char>, VerityParamsView)>, AddonErrorView>(list),
        replies.len() == 1 + 5 * list.len(),
        replies[0] == ReplyView::Text(cmdline),
        forall|k: int|
            0 <= k < list.len() ==> grants(list[k].0, #[trigger] five_replies(replies, k)),
    ensures
        all_after(replies) is Finished,
        forall|k: int|
            0 <= k <= list.len() ==> all_after(#[trigger] replies.take(1 + 5 * k)) == before_addon(
                list,
                k,
            ),
{
    assert forall|k: int| 0 <= k <= list.len() implies all_after(
        #[trigger] replies.take(1 + 5 * k),
    ) == before_addon(list, k) by {
        lemma_granted_prefix(cmdline, list, replies, k);
    }
    lemma_granted_prefix(cmdline, list, replies, list.len() as int);
    assert(replies.take(replies.len() as int) =~= replies);
}

proof fn lemma_granted_prefix(
    cmdline: Seq<char>,
    list: Seq<(Seq<char>, VerityParamsView)>,
    replies: Seq<ReplyView>,
    k: int,
)
    requires
        addons(cmdline) == Ok::<Seq<(Seq<char>, VerityParamsView)>, AddonErrorView>(list),
        replies.len() == 1 + 5 * list.len(),
        replies[0] == ReplyView::Text(cmdline),
        forall|k: int|
            0 <= k < list.len() ==> grants(list[k].0, #[trigger] five_replies(replies, k)),
        0 <= k <= list.len(),
    ensures
        all_after(replies.take(1 + 5 * k)) == before_addon(list, k),
    decreases k,
{
    if k == 0 {
        lemma_one_more_reply(replies, 0);
        assert(all_after(replies.take(0)) is ReadCmdline);
        if list.len() > 0 {
            assert(list.skip(0) =~= list);
        }
    } else {
        let i = k - 1;
        let n = 1 + 5 * i;
        lemma_granted_prefix(cmdline, list, replies, i);
        let five = five_replies(replies, i);
        assert(grants(list[i].0, five));
        assert(five[0] == replies[n] && five[1] == replies[n + 1] && five[2] == replies[n + 2]
            && five[3] == replies[n + 3] && five[4] == replies[n + 4]);
        lemma_one_more_reply(replies, n);
        lemma_one_more_reply(replies, n + 1);
        lemma_one_more_reply(replies, n + 2);
        lemma_one_more_reply(replies, n + 3);
        lemma_one_more_reply(replies, n + 4);
        lemma_granted_five(list, i, five);
    }
}

proof fn lemma_granted_five(list: Seq<(Seq<char>, VerityParamsView)>, i: int, five: Seq<ReplyView>)
    requires
        0 <= i < list.len(),
        grants(list[i].0, five),
    ensures
        before_addon(list, i).advance(five[0]).advance(five[1]).advance(five[2]).advance(
            five[3],
        ).advance(five[4]) == before_addon(list, i + 1),
{
    let rest = list.skip(i + 1);
    let s0 = MountAddonView::FindDevice { name: list[i].0, params: list[i].1 };
    law_granted_addon_mounted(list[i].0, list[i].1, five);
    let s1 = s0.advance(five[0]);
    let s2 = s1.advance(five[1]);
    let s3 = s2.advance(five[2]);
    let s4 = s3.advance(five[3]);
    let a1 = before_addon(list, i).advance(five[0]);
    assert(a1 == (MountAllView::Mounting { current: s1, rest }));
    let a2 = a1.advance(five[1]);
    assert(a2 == (MountAllView::Mounting { current: s2, rest }));
    let a3 = a2.advance(five[2]);
    assert(a3 == (MountAllView::Mounting { current: s3, rest }));
    let a4 = a3.advance(five[3]);
    assert(a4 == (MountAllView::Mounting { current: s4, rest }));
    let a5 = a4.advance(five[4]);
    if i + 1 < list.len() {
        assert(rest[0] == list[i + 1]);
        assert(rest.skip(1) =~= list.skip(i + 2));
        assert(a5 == before_addon(list, i + 1));
    } else {
        assert(rest.len() == 0);
    }
}

/// The mounting of all addons panics only for a reason: something failed, the
/// command line is refused, or a listing lacks the device of the addon or one of its
/// partitions.
pub proof fn law_panic_has_reason(replies: Seq<ReplyView>, reply: ReplyView)
    requires
        !(all_after(replies) is Panicked),
        all_after(replies.push(reply)) is Panicked,
    ensures
        reply is Failed || match all_after(replies) {
            MountAllView::ReadCmdline => reply is Text && addons(reply->Text_0) is Err,
            MountAllView::Mounting { current, .. } => reply is Entries && match current {
                MountAddonView::FindDevice { name, .. } => !some_carries(
                    reply->Entries_0,
                    "addon-"@ + name,
                ),
                MountAddonView::FindPartitions { .. } => !some_carries(reply->Entries_0, "1"@)
                    || !some_carries(reply->Entries_0, "2"@),
                _ => false,
            },
            _ => false,
        },
{
    lemma_all_fits(replies);
    assert(replies.push(reply).drop_last() =~= replies);
    if let MountAllView::Mounting { current, rest } = all_after(replies) {
        if reply is Entries {
            match current {
                MountAddonView::FindDevice { name, .. } => {
                    law_first_device_with_serial(
                        reply->Entries_0,
                        "addon-"@ + name,
                        Seq::empty(),
                    );
                },
                MountAddonView::FindPartitions { dev, .. } => {
                    law_partitions(reply->Entries_0, dev);
                },
                _ => {},
            }
        }
    }
}

/// The mounting of all addons asks for the command line, then for what the addon at
/// hand asks for, and panics with the words of what stopped it.
pub proof fn law_all_requests(
    current: MountAddonView,
    rest: Seq<(Seq<char>, VerityParamsView)>,
    reply: ReplyView,
    message: Seq<char>,
)
    ensures
        MountAllView::ReadCmdline.pending() == (ActionView::ReadFile { path: "/proc/cmdline"@ }),
        (MountAllView::Mounting { current, rest }).pending() == current.pending(),
        MountAllView::Finished.pending() is Finish,
        (MountAllView::Panicked { message }).pending() == (ActionView::Panic { message }),
        current.advance(reply) == (MountAddonView::Panicked { message }) ==> (
        MountAllView::Mounting { current, rest }).advance(reply) == (MountAllView::Panicked {
            message,
        }),
        MountAllView::ReadCmdline.advance(ReplyView::Failed) == (MountAllView::Panicked {
            message: "read /proc/cmdline"@,
        }),
{
    reveal_strlit("read ");
    reveal_strlit("/proc/cmdline");
    reveal_strlit("read /proc/cmdline");
    assert("read /proc/cmdline"@ =~= "read "@ + "/proc/cmdline"@);
}

} // verus!
