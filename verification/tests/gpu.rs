use nvrc::gpu::{
    bind_dir, bind_firmware, library_search_paths, modprobe_dirname, modprobe_dirname_in, resolve,
    resolve_in, setup, Setup, FIRMWARE_DST, FIRMWARE_SRC, ROOT,
};
use nvrc::host::{Action, Reply};
use nvrc::toolkit::{ctk, nvidia_ctk_cdi};

// === resolve ===

#[test]
fn test_resolve_with_addon() {
    assert_eq!(
        resolve_in(true, "/run/kata-addons/gpu", "/bin/nvidia-smi"),
        "/run/kata-addons/gpu/bin/nvidia-smi"
    );
}

#[test]
fn test_resolve_without_addon() {
    assert_eq!(
        resolve_in(false, "/run/kata-addons/gpu", "/bin/nvidia-smi"),
        "/bin/nvidia-smi"
    );
}

#[test]
fn test_resolve_config_path() {
    assert_eq!(
        resolve_in(true, "/run/kata-addons/gpu", "/usr/share/nvidia/nvlsm/nvlsm.conf"),
        "/run/kata-addons/gpu/usr/share/nvidia/nvlsm/nvlsm.conf"
    );
}

#[test]
fn components_are_resolved_below_the_mount_point() {
    assert_eq!(resolve(true, "/sbin/x"), "/run/kata-addons/gpu/sbin/x");
    assert_eq!(resolve(false, "/sbin/x"), "/sbin/x");
    assert_eq!(resolve(true, FIRMWARE_DST), FIRMWARE_SRC);
}

// === modprobe_dirname ===

#[test]
fn test_modprobe_dirname_nvidia_with_addon() {
    assert_eq!(
        modprobe_dirname_in(true, "/run/kata-addons/gpu", "nvidia"),
        Some("/run/kata-addons/gpu".to_owned())
    );
    assert_eq!(
        modprobe_dirname_in(true, "/run/kata-addons/gpu", "nvidia-uvm"),
        Some("/run/kata-addons/gpu".to_owned())
    );
}

#[test]
fn test_modprobe_dirname_nvidia_without_addon() {
    assert_eq!(modprobe_dirname_in(false, "/run/kata-addons/gpu", "nvidia"), None);
}

#[test]
fn test_modprobe_dirname_base_module_with_addon() {
    // In-tree modules ship in the base image, not the addon.
    assert_eq!(modprobe_dirname_in(true, "/run/kata-addons/gpu", "ib_umad"), None);
    assert_eq!(modprobe_dirname_in(true, "/run/kata-addons/gpu", "mlx5_ib"), None);
}

#[test]
fn modules_of_the_addon_are_found_below_its_root() {
    assert_eq!(modprobe_dirname(true, "nvidia"), Some(ROOT.to_owned()));
    assert_eq!(modprobe_dirname(true, "nvidi"), None);
    assert_eq!(modprobe_dirname(true, "xnvidia"), None);
    assert_eq!(modprobe_dirname(false, "nvidia"), None);
}

// === setup ===

#[test]
fn setup_exposes_libraries_and_firmware() {
    let s = setup();
    match s.pending() {
        Action::ProbeDir { path } => assert_eq!(path, "/run/kata-addons/gpu"),
        other => panic!("{other:?}"),
    }
    let s = s.advance(Reply::IsDir(true));
    match s.pending() {
        Action::SetEnv { key, value } => {
            assert_eq!(key, "LD_LIBRARY_PATH");
            assert_eq!(value, "/run/kata-addons/gpu/lib:/run/kata-addons/gpu/usr/lib");
        }
        other => panic!("{other:?}"),
    }
    let s = s.advance(Reply::Done);
    match s.pending() {
        Action::ProbeDir { path } => assert_eq!(path, "/run/kata-addons/gpu/lib/firmware/nvidia"),
        other => panic!("{other:?}"),
    }
    let s = s.advance(Reply::IsDir(true));
    match s.pending() {
        Action::Mount { call } => {
            assert_eq!(call.source, "/run/kata-addons/gpu/lib/firmware/nvidia");
            assert_eq!(call.target, "/lib/firmware/nvidia");
            assert_eq!(call.fstype, None);
            assert!(call.flags.bind);
            assert!(!call.flags.read_only && !call.flags.no_suid);
            assert!(!call.flags.no_dev && !call.flags.no_exec);
        }
        other => panic!("{other:?}"),
    }
    assert!(matches!(s.advance(Reply::Done).pending(), Action::Finish));
}

#[test]
fn setup_does_nothing_without_the_addon() {
    assert!(matches!(setup().advance(Reply::IsDir(false)), Setup::Finished));
}

#[test]
fn setup_skips_absent_firmware_and_other_replies() {
    assert!(matches!(
        bind_firmware().advance(Reply::IsDir(false)),
        Setup::Finished
    ));
    assert!(matches!(
        bind_firmware().advance(Reply::Failed).advance(Reply::Done),
        Setup::ProbeFirmware
    ));
}

#[test]
fn a_failed_bind_is_fatal() {
    let s = bind_firmware()
        .advance(Reply::IsDir(true))
        .advance(Reply::Failed);
    match s.pending() {
        Action::Panic { message } => assert_eq!(
            message,
            "bind /run/kata-addons/gpu/lib/firmware/nvidia -> /lib/firmware/nvidia"
        ),
        other => panic!("{other:?}"),
    }
    assert!(matches!(
        s.advance(Reply::Done).pending(),
        Action::Panic { .. }
    ));
}

#[test]
fn a_directory_is_bound_as_it_stands() {
    let call = bind_dir("/a", "/b");
    assert_eq!(call.source, "/a");
    assert_eq!(call.target, "/b");
}

// === nvidia-ctk ===

#[test]
fn the_toolkit_is_called_where_it_lives() {
    let command = ctk(true, vec!["--version".to_owned()]);
    assert_eq!(command.program, "/run/kata-addons/gpu/bin/nvidia-ctk");
    assert_eq!(command.args, vec!["--version"]);
    assert_eq!(ctk(false, vec![]).program, "/bin/nvidia-ctk");
}

#[test]
fn the_cdi_spec_is_generated_from_the_addon() {
    let command = nvidia_ctk_cdi(true, &library_search_paths(true), Some("/x/nvidia-cdi-hook"));
    assert_eq!(command.program, "/run/kata-addons/gpu/bin/nvidia-ctk");
    assert_eq!(
        command.args,
        vec![
            "-d",
            "cdi",
            "generate",
            "--output=/var/run/cdi/nvidia.yaml",
            "--library-search-path=/run/kata-addons/gpu/lib",
            "--library-search-path=/run/kata-addons/gpu/usr/lib",
            "--nvidia-cdi-hook-path=/x/nvidia-cdi-hook",
        ]
    );
}

#[test]
fn the_cdi_spec_of_a_monolithic_image_is_generated_as_ever() {
    let command = nvidia_ctk_cdi(false, &library_search_paths(false), None);
    assert_eq!(command.program, "/bin/nvidia-ctk");
    assert_eq!(
        command.args,
        vec!["-d", "cdi", "generate", "--output=/var/run/cdi/nvidia.yaml"]
    );
}
