//! Laws of the GPU addon.

use vstd::prelude::*;
use crate::gpu::{
    bind_mount, library_dirs, library_path, module_root, resolved, SetupView, FIRMWARE_DST,
    FIRMWARE_SRC, MODULE_PREFIX, ROOT,
};
use crate::host::{ActionView, CommandView, ReplyView};
use crate::laws::addon::{lemma_append_injective, logged, Answered};
use crate::toolkit::{cdi_args, ctk_command, NVIDIA_CTK};

verus! {

/// Without the addon everything is where it is on a monolithic image: paths are
/// unchanged, no module comes from elsewhere, no library directory is added, the
/// environment is left alone, and the CDI spec is generated by the program of the
/// rootfs.
pub proof fn law_absent_addon_changes_nothing(
    root: Seq<char>,
    path: Seq<char>,
    module: Seq<char>,
    args: Seq<Seq<char>>,
)
    ensures
        resolved(false, root, path) == path,
        module_root(false, root, module) is None,
        library_dirs(false) == Seq::<Seq<char>>::empty(),
        SetupView::ProbeAddon.advance(ReplyView::IsDir(false)) is Finished,
        ctk_command(false, args) == (CommandView { program: NVIDIA_CTK@, args }),
        cdi_args(library_dirs(false), None) == seq![
            "-d"@,
            "cdi"@,
            "generate"@,
            "--output=/var/run/cdi/nvidia.yaml"@,
        ],
{
    assert(cdi_args(library_dirs(false), None) =~= seq![
        "-d"@,
        "cdi"@,
        "generate"@,
        "--output=/var/run/cdi/nvidia.yaml"@,
    ]);
}

/// With the addon a component is below the root of the addon, at its canonical
/// path.
pub proof fn law_present_addon_prefixes(root: Seq<char>, path: Seq<char>)
    ensures
        root.is_prefix_of(resolved(true, root, path)),
        resolved(true, root, path).skip(root.len() as int) == path,
{
    assert(resolved(true, root, path).subrange(0, root.len() as int) =~= root);
    assert(resolved(true, root, path).skip(root.len() as int) =~= path);
}

/// Different components stay different.
pub proof fn law_resolution_injective(present: bool, root: Seq<char>, a: Seq<char>, b: Seq<char>)
    requires
        a != b,
    ensures
        resolved(present, root, a) != resolved(present, root, b),
{
    lemma_append_injective(root, a, b);
}

/// Only modules whose names begin like those of NVIDIA come from the addon; the
/// in-tree ones stay in the base image.
pub proof fn law_in_tree_modules_stay(present: bool, root: Seq<char>, module: Seq<char>)
    ensures
        module_root(present, root, module) is Some <==> present && MODULE_PREFIX@.is_prefix_of(
            module,
        ),
        !MODULE_PREFIX@.is_prefix_of(module) ==> module_root(present, root, module) is None,
        module_root(present, root, module) is Some ==> module_root(present, root, module) == Some(
            root,
        ),
{
}

/// The library path is that of the library directories, and the firmware of the
/// addon is the firmware directory of the rootfs, resolved.
pub proof fn law_addon_places_agree()
    ensures
        library_path() == library_dirs(true)[0] + ":"@ + library_dirs(true)[1],
        library_dirs(true) == seq![
            resolved(true, ROOT@, "/lib"@),
            resolved(true, ROOT@, "/usr/lib"@),
        ],
        FIRMWARE_SRC@ == resolved(true, ROOT@, FIRMWARE_DST@),
{
    reveal_strlit("/lib");
    reveal_strlit("/lib:");
    reveal_strlit(":");
    assert("/lib:"@ =~= "/lib"@ + ":"@);
    assert(library_path() =~= library_dirs(true)[0] + ":"@ + library_dirs(true)[1]);
    reveal_strlit("/run/kata-addons/gpu");
    reveal_strlit("/lib/firmware/nvidia");
    reveal_strlit("/run/kata-addons/gpu/lib/firmware/nvidia");
    assert(FIRMWARE_SRC@ =~= resolved(true, ROOT@, FIRMWARE_DST@));
}

/// The preparation after `replies`.
pub open spec fn setup_after(replies: Seq<ReplyView>) -> SetupView
    decreases replies.len(),
{
    if replies.len() == 0 {
        SetupView::ProbeAddon
    } else {
        setup_after(replies.drop_last()).advance(replies.last())
    }
}

/// What was asked and answered in the preparation.
pub open spec fn setup_log(replies: Seq<ReplyView>) -> Seq<Answered>
    decreases replies.len(),
{
    if replies.len() == 0 {
        Seq::empty()
    } else {
        let before = replies.drop_last();
        logged(setup_log(before), setup_after(before).pending(), replies.last())
    }
}

/// A reply that does not answer the pending action changes nothing, and once the
/// preparation is over no reply does.
pub proof fn law_setup_stray_reply_ignored(state: SetupView, reply: ReplyView)
    requires
        !reply.answers(state.pending()),
    ensures
        state.advance(reply) == state,
{
}

/// The addon was found to be there, or not.
pub open spec fn addon_probed(there: bool) -> Answered {
    (ActionView::ProbeDir { path: ROOT@ }, ReplyView::IsDir(there))
}

/// The library path was set.
pub open spec fn library_path_set() -> Answered {
    (
        ActionView::SetEnv { key: "LD_LIBRARY_PATH"@, value: library_path() },
        ReplyView::Done,
    )
}

/// The firmware was found to be there, or not.
pub open spec fn firmware_probed(there: bool) -> Answered {
    (ActionView::ProbeDir { path: FIRMWARE_SRC@ }, ReplyView::IsDir(there))
}

/// The firmware was bound, or could not be.
pub open spec fn firmware_bound(reply: ReplyView) -> Answered {
    (ActionView::Mount { call: bind_mount(FIRMWARE_SRC@, FIRMWARE_DST@) }, reply)
}

/// What has happened in each state of the preparation: the library path is set
/// only if the addon is there, and before the firmware is looked for; the firmware
/// is bound only if it is there; and a bind that fails is fatal.
pub proof fn law_setup_in_order(replies: Seq<ReplyView>)
    ensures
        match setup_after(replies) {
            SetupView::ProbeAddon => setup_log(replies) == Seq::<Answered>::empty(),
            SetupView::SetLibraryPath => setup_log(replies) == seq![addon_probed(true)],
            SetupView::ProbeFirmware => setup_log(replies) == seq![
                addon_probed(true),
                library_path_set(),
            ],
            SetupView::BindFirmware => setup_log(replies) == seq![
                addon_probed(true),
                library_path_set(),
                firmware_probed(true),
            ],
            SetupView::Finished => {
                ||| setup_log(replies) == seq![addon_probed(false)]
                ||| setup_log(replies) == seq![
                    addon_probed(true),
                    library_path_set(),
                    firmware_probed(false),
                ]
                ||| setup_log(replies) == seq![
                    addon_probed(true),
                    library_path_set(),
                    firmware_probed(true),
                    firmware_bound(ReplyView::Done),
                ]
            },
            SetupView::Panicked { message } => {
                &&& setup_log(replies) == seq![
                    addon_probed(true),
                    library_path_set(),
                    firmware_probed(true),
                    firmware_bound(ReplyView::Failed),
                ]
                &&& message == "bind "@ + FIRMWARE_SRC@ + " -> "@ + FIRMWARE_DST@
            },
        },
    decreases replies.len(),
{
    if replies.len() > 0 {
        let before = replies.drop_last();
        let reply = replies.last();
        law_setup_in_order(before);
        let log = setup_log(before);
        match setup_after(before) {
            SetupView::ProbeAddon => {
                assert(log.push(addon_probed(true)) =~= seq![addon_probed(true)]);
                assert(log.push(addon_probed(false)) =~= seq![addon_probed(false)]);
            },
            SetupView::SetLibraryPath => {
                assert(log.push(library_path_set()) =~= seq![
                    addon_probed(true),
                    library_path_set(),
                ]);
            },
            SetupView::ProbeFirmware => {
                assert(log.push(firmware_probed(true)) =~= seq![
                    addon_probed(true),
                    library_path_set(),
                    firmware_probed(true),
                ]);
                assert(log.push(firmware_probed(false)) =~= seq![
                    addon_probed(true),
                    library_path_set(),
                    firmware_probed(false),
                ]);
            },
            SetupView::BindFirmware => {
                assert(log.push(firmware_bound(reply)) =~= seq![
                    addon_probed(true),
                    library_path_set(),
                    firmware_probed(true),
                    firmware_bound(reply),
                ]);
            },
            SetupView::Finished => {},
            SetupView::Panicked { .. } => {},
        }
    }
}

/// What is asked for in each state of the preparation.
pub proof fn law_setup_requests(message: Seq<char>)
    ensures
        SetupView::ProbeAddon.pending() == (ActionView::ProbeDir {
            path: "/run/kata-addons/gpu"@,
        }),
        SetupView::SetLibraryPath.pending() == (ActionView::SetEnv {
            key: "LD_LIBRARY_PATH"@,
            value: "/run/kata-addons/gpu/lib:/run/kata-addons/gpu/usr/lib"@,
        }),
        SetupView::ProbeFirmware.pending() == (ActionView::ProbeDir {
            path: "/run/kata-addons/gpu/lib/firmware/nvidia"@,
        }),
        SetupView::BindFirmware.pending() == (ActionView::Mount {
            call: bind_mount(
                "/run/kata-addons/gpu/lib/firmware/nvidia"@,
                "/lib/firmware/nvidia"@,
            ),
        }),
        SetupView::Finished.pending() is Finish,
        (SetupView::Panicked { message }).pending() == (ActionView::Panic { message }),
{
    reveal_strlit("/run/kata-addons/gpu");
    reveal_strlit("/lib:");
    reveal_strlit("/usr/lib");
    reveal_strlit("/run/kata-addons/gpu/lib:/run/kata-addons/gpu/usr/lib");
    assert(library_path() =~= "/run/kata-addons/gpu/lib:/run/kata-addons/gpu/usr/lib"@);
}

/// The number of exchanges that the preparation has before it, at most.
pub open spec fn setup_exchanges_left(state: SetupView) -> nat {
    match state {
        SetupView::ProbeAddon => 4,
        SetupView::SetLibraryPath => 3,
        SetupView::ProbeFirmware => 2,
        SetupView::BindFirmware => 1,
        SetupView::Finished => 0,
        SetupView::Panicked { .. } => 0,
    }
}

/// Every answer brings the preparation closer to its end.
pub proof fn law_setup_answer_is_progress(state: SetupView, reply: ReplyView)
    requires
        match state {
            SetupView::ProbeAddon => reply is IsDir,
            SetupView::SetLibraryPath => reply is Done,
            SetupView::ProbeFirmware => reply is IsDir,
            SetupView::BindFirmware => reply is Done || reply is Failed,
            _ => false,
        },
    ensures
        setup_exchanges_left(state.advance(reply)) < setup_exchanges_left(state),
        reply is Failed <==> state.advance(reply) is Panicked,
{
}

/// Where the addon is there its libraries are exposed, and where it ships firmware
/// this is bound, and only then.
pub proof fn law_setup_complete(firmware: bool)
    ensures
        setup_after(seq![ReplyView::IsDir(false)]) is Finished,
        setup_after(seq![ReplyView::IsDir(true)]) is SetLibraryPath,
        setup_after(seq![ReplyView::IsDir(true), ReplyView::Done]) is ProbeFirmware,
        firmware ==> setup_after(
            seq![ReplyView::IsDir(true), ReplyView::Done, ReplyView::IsDir(firmware)],
        ) is BindFirmware,
        !firmware ==> setup_after(
            seq![ReplyView::IsDir(true), ReplyView::Done, ReplyView::IsDir(firmware)],
        ) is Finished,
        setup_after(
            seq![ReplyView::IsDir(true), ReplyView::Done, ReplyView::IsDir(true), ReplyView::Done],
        ) is Finished,
{
    let a = seq![ReplyView::IsDir(true)];
    let b = seq![ReplyView::IsDir(true), ReplyView::Done];
    let c = seq![ReplyView::IsDir(true), ReplyView::Done, ReplyView::IsDir(firmware)];
    let c1 = seq![ReplyView::IsDir(true), ReplyView::Done, ReplyView::IsDir(true)];
    let d = seq![ReplyView::IsDir(true), ReplyView::Done, ReplyView::IsDir(true), ReplyView::Done];
    assert(setup_after(Seq::empty()) is ProbeAddon);
    assert(seq![ReplyView::IsDir(false)].drop_last() =~= Seq::empty());
    assert(a.drop_last() =~= Seq::empty());
    assert(b.drop_last() =~= a);
    assert(c.drop_last() =~= b);
    assert(c1.drop_last() =~= b);
    assert(d.drop_last() =~= c1);
    assert(setup_after(a) is SetLibraryPath);
    assert(setup_after(b) is ProbeFirmware);
    assert(setup_after(c1) is BindFirmware);
}

/// A directory is made visible elsewhere as it is: no other file system, no flag but
/// that of the bind.
pub proof fn law_bind_mount(src: Seq<char>, dst: Seq<char>)
    ensures
        bind_mount(src, dst).source == src,
        bind_mount(src, dst).target == dst,
        bind_mount(src, dst).fstype is None,
        bind_mount(src, dst).flags.bind,
        !bind_mount(src, dst).flags.read_only,
        !bind_mount(src, dst).flags.no_suid,
        !bind_mount(src, dst).flags.no_dev,
        !bind_mount(src, dst).flags.no_exec,
{
}

/// The libraries of the addon are in two directories below its root; without the
/// addon there are none.
pub proof fn law_library_dirs(present: bool)
    ensures
        present ==> library_dirs(present) == seq![
            "/run/kata-addons/gpu/lib"@,
            "/run/kata-addons/gpu/usr/lib"@,
        ],
        !present ==> library_dirs(present).len() == 0,
{
    reveal_strlit("/run/kata-addons/gpu");
    reveal_strlit("/lib");
    reveal_strlit("/usr/lib");
    reveal_strlit("/run/kata-addons/gpu/lib");
    reveal_strlit("/run/kata-addons/gpu/usr/lib");
    assert(ROOT@ + "/lib"@ =~= "/run/kata-addons/gpu/lib"@);
    assert(ROOT@ + "/usr/lib"@ =~= "/run/kata-addons/gpu/usr/lib"@);
}

/// A module comes from the root that is present exactly if its name begins with
/// `nvidia`.
pub proof fn law_module_root(present: bool, root: Seq<char>, rest: Seq<char>, module: Seq<char>)
    ensures
        module_root(true, root, "nvidia"@ + rest) == Some(root),
        !"nvidia"@.is_prefix_of(module) ==> module_root(present, root, module) is None,
        module_root(false, root, module) is None,
{
    assert(("nvidia"@ + rest).subrange(0, "nvidia"@.len() as int) =~= "nvidia"@);
}

} // verus!
