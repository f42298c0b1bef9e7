use nvrc::addon::{mount_addon, mount_all, MountAddon, MountAll};
use nvrc::cmdline::{parse_addons, try_parse_addons};
use nvrc::device::{find_device_by_serial, find_partitions, try_find_partitions};
use nvrc::host::{Action, DirEntry, Reply};
use nvrc::verity::{parse_u64, parse_verity_params, try_parse_u64, try_parse_verity_params, verity_args};

const PARAMS: &str = "root_hash=abc123,salt=def456,data_blocks=96512,\
                      data_block_size=4096,hash_block_size=4096";

fn entry(name: &str, content: Option<&str>) -> DirEntry {
    DirEntry {
        name: name.to_owned(),
        content: content.map(|s| s.to_owned()),
    }
}

/// A rootfs device and an addon device exposing serials.
fn sys_block() -> Vec<DirEntry> {
    vec![entry("vda", Some("rootfs\n")), entry("vdb", Some("addon-coco\n"))]
}

fn partitions() -> Vec<DirEntry> {
    vec![
        entry("vdb1", Some("1\n")),
        entry("size", None),
        entry("vdb2", Some("2\n")),
    ]
}

fn names(cmdline: &str) -> Vec<String> {
    parse_addons(cmdline).into_iter().map(|(n, _)| n).collect()
}

fn verity_error(params: &str) -> String {
    match try_parse_verity_params("coco", params) {
        Ok(_) => panic!("accepted"),
        Err(e) => e.message(),
    }
}

// === parse_verity_params ===

#[test]
fn test_parse_verity_params_valid() {
    let p = parse_verity_params("coco", PARAMS);
    assert_eq!(p.root_hash, "abc123");
    assert_eq!(p.salt, "def456");
    assert_eq!(p.data_blocks, 96512);
    assert_eq!(p.data_block_size, 4096);
    assert_eq!(p.hash_block_size, 4096);
}

#[test]
fn test_parse_verity_params_ignores_unknown_keys() {
    let p = parse_verity_params("coco", &format!("{PARAMS},extra=ignored"));
    assert_eq!(p.root_hash, "abc123");
}

#[test]
fn test_parse_verity_params_invalid_missing_root_hash() {
    assert_eq!(
        verity_error("salt=def,data_blocks=1,data_block_size=4096,hash_block_size=4096"),
        "addon coco: verity_params missing root_hash"
    );
}

#[test]
fn test_parse_verity_params_invalid_zero_data_blocks() {
    assert_eq!(
        verity_error("root_hash=a,salt=b,data_blocks=0,data_block_size=4096,hash_block_size=4096"),
        "addon coco: verity_params missing or zero data_blocks"
    );
}

#[test]
fn test_parse_verity_params_invalid_non_numeric() {
    assert_eq!(
        verity_error(
            "root_hash=a,salt=b,data_blocks=lots,data_block_size=4096,hash_block_size=4096"
        ),
        "addon coco: invalid verity_params data_blocks=lots"
    );
}

#[test]
fn missing_fields_are_reported_in_field_order() {
    assert_eq!(verity_error(""), "addon coco: verity_params missing root_hash");
    assert_eq!(
        verity_error("root_hash=a"),
        "addon coco: verity_params missing salt"
    );
    assert_eq!(
        verity_error("root_hash=a,salt=b"),
        "addon coco: verity_params missing or zero data_blocks"
    );
    assert_eq!(
        verity_error("root_hash=a,salt=b,data_blocks=1"),
        "addon coco: verity_params missing or zero data_block_size"
    );
    assert_eq!(
        verity_error("root_hash=a,salt=b,data_blocks=1,data_block_size=1"),
        "addon coco: verity_params missing or zero hash_block_size"
    );
}

#[test]
fn a_malformed_number_is_reported_before_anything_missing() {
    assert_eq!(
        verity_error("hash_block_size=x,data_blocks=y"),
        "addon coco: invalid verity_params hash_block_size=x"
    );
    // even where a later value is in order
    assert_eq!(
        verity_error(&format!("data_blocks=,{PARAMS}")),
        "addon coco: invalid verity_params data_blocks="
    );
}

#[test]
fn the_later_value_of_a_key_counts() {
    let p = parse_verity_params("coco", &format!("{PARAMS},salt=new,data_blocks=+7"));
    assert_eq!(p.salt, "new");
    assert_eq!(p.data_blocks, 7);
    let p = parse_verity_params("coco", &format!("data_blocks=0,{PARAMS}"));
    assert_eq!(p.data_blocks, 96512);
}

#[test]
fn pieces_without_a_value_are_ignored_and_values_may_hold_equals_signs() {
    let p = parse_verity_params("coco", &format!(",flag,{PARAMS},,root_hash=a=b="));
    assert_eq!(p.root_hash, "a=b=");
    let p = parse_verity_params("coco", &format!("{PARAMS},salt="));
    assert_eq!(p.salt, "");
    // keys are compared as they stand
    let p = parse_verity_params("coco", &format!("{PARAMS}, salt=x,SALT=y"));
    assert_eq!(p.salt, "def456");
}

// === parse_u64 ===

#[test]
fn numbers_are_read_as_unsigned_decimals() {
    assert_eq!(parse_u64("coco", "data_blocks", "18446744073709551615"), u64::MAX);
    assert_eq!(parse_u64("coco", "data_blocks", "+10"), 10);
    assert_eq!(parse_u64("coco", "data_blocks", "007"), 7);
    for bad in [
        "", "+", "-1", "++1", " 1", "1 ", "1_000", "0x10", "18446744073709551616",
        "99999999999999999999", "\u{661}",
    ] {
        match try_parse_u64("coco", "data_blocks", bad) {
            Ok(n) => panic!("{bad} read as {n}"),
            Err(e) => assert_eq!(
                e.message(),
                format!("addon coco: invalid verity_params data_blocks={bad}")
            ),
        }
    }
}

// === parse_addons ===

#[test]
fn test_parse_addons_single() {
    assert_eq!(
        names(&format!("ro quiet kata.addon.coco.verity_params={PARAMS} console=ttyS0")),
        vec!["coco"]
    );
}

#[test]
fn test_parse_addons_multiple() {
    assert_eq!(
        names(&format!(
            "kata.addon.coco.verity_params={PARAMS} kata.addon.gpu.verity_params={PARAMS}"
        )),
        vec!["coco", "gpu"]
    );
}

#[test]
fn test_parse_addons_none() {
    assert_eq!(names("ro quiet console=ttyS0 nvrc.log=debug"), Vec::<String>::new());
}

#[test]
fn test_parse_addons_other_kata_params() {
    assert_eq!(names("kata.addon.coco.other=x kata.something=y"), Vec::<String>::new());
}

#[test]
fn the_parameters_come_with_the_names() {
    let addons = parse_addons(&format!("\tkata.addon.a.b.verity_params={PARAMS}\n"));
    assert_eq!(addons.len(), 1);
    assert_eq!(addons[0].0, "a.b");
    assert_eq!(addons[0].1.root_hash, "abc123");
    assert_eq!(addons[0].1.hash_block_size, 4096);
}

#[test]
fn prefix_and_suffix_of_a_key_do_not_overlap() {
    assert_eq!(names("kata.addon.verity_params=x"), Vec::<String>::new());
    assert_eq!(
        names(&format!("kata.addon..verity_params={PARAMS}")),
        vec![""]
    );
    // no value at all declares nothing
    assert_eq!(names("kata.addon.coco.verity_params"), Vec::<String>::new());
}

#[test]
fn the_first_refused_addon_decides() {
    let cmdline = format!(
        "kata.addon.a.verity_params={PARAMS} kata.addon.b.verity_params=x kata.addon.c.verity_params=data_blocks=y"
    );
    match try_parse_addons(&cmdline) {
        Ok(_) => panic!("accepted"),
        Err(e) => assert_eq!(e.message(), "addon b: verity_params missing root_hash"),
    }
}

#[test]
fn a_declared_addon_is_read_back() {
    let addons = parse_addons(
        "kata.addon.x.verity_params=root_hash=r,salt=s,data_blocks=1,data_block_size=2,hash_block_size=3",
    );
    assert_eq!(addons.len(), 1);
    assert_eq!(addons[0].0, "x");
    assert_eq!(addons[0].1.root_hash, "r");
    assert_eq!(addons[0].1.salt, "s");
    assert_eq!(addons[0].1.data_blocks, 1);
    assert_eq!(addons[0].1.data_block_size, 2);
    assert_eq!(addons[0].1.hash_block_size, 3);
}

#[test]
fn a_command_line_denotes_what_its_parts_denote() {
    let a = format!("x=y kata.addon.a.verity_params={PARAMS}");
    let b = format!("kata.addon.b.verity_params={PARAMS} z");
    let mut both = names(&a);
    both.extend(names(&b));
    assert_eq!(names(&format!("{a} {b}")), both);
    assert_eq!(names(&format!("{a}\u{2003}{b}")), both);
}

// === verity_args ===

#[test]
fn test_verity_args_order() {
    let p = parse_verity_params("coco", PARAMS);
    let args = verity_args("addon-coco", "/dev/vdb1", "/dev/vdb2", &p);
    assert_eq!(
        args,
        vec![
            "open",
            "--no-superblock",
            "--hash",
            "sha256",
            "--data-block-size",
            "4096",
            "--hash-block-size",
            "4096",
            "--data-blocks",
            "96512",
            "--salt",
            "def456",
            "/dev/vdb1",
            "addon-coco",
            "/dev/vdb2",
            "abc123",
        ]
    );
}

// === find_device_by_serial ===

#[test]
fn test_find_device_by_serial_match_found() {
    assert_eq!(
        find_device_by_serial(Some(&sys_block()), "addon-coco"),
        Some("vdb".to_owned())
    );
}

#[test]
fn test_find_device_by_serial_no_match() {
    assert_eq!(find_device_by_serial(Some(&sys_block()), "addon-missing"), None);
}

#[test]
fn test_find_device_by_serial_missing_serial_file() {
    // device dir without a serial attribute must be skipped, not panic
    let sys_block = vec![entry("vdb", None)];
    let dev = find_device_by_serial(Some(&sys_block), "addon-coco");
    assert_eq!(dev, None);
}

#[test]
fn test_find_device_by_serial_nonexistent_dir() {
    // there is no listing of "/nonexistent/path"
    assert_eq!(find_device_by_serial(None, "addon-coco"), None);
}

#[test]
fn discovery_does_not_depend_on_the_order() {
    let mut devices = sys_block();
    devices.reverse();
    assert_eq!(
        find_device_by_serial(Some(&devices), "addon-coco"),
        Some("vdb".to_owned())
    );
}

#[test]
fn the_first_of_several_devices_with_the_serial_is_taken() {
    let devices = vec![entry("vdc", Some(" s\t\n")), entry("vdb", Some("s"))];
    assert_eq!(find_device_by_serial(Some(&devices), "s"), Some("vdc".to_owned()));
}

// === find_partitions ===

#[test]
fn test_find_partitions() {
    // a non-partition sysfs attribute alongside partitions must be ignored
    let (data, hash) = find_partitions(&partitions(), "vdb");
    assert_eq!(data, "/dev/vdb1");
    assert_eq!(hash, "/dev/vdb2");
}

#[test]
#[should_panic]
fn test_find_partitions_missing_hash_panics() {
    find_partitions(&vec![entry("vdb1", Some("1\n"))], "vdb");
}

#[test]
fn partitions_are_told_by_number_not_by_name() {
    let entries = vec![
        entry("nvme0n1p2", Some("1\n")),
        entry("x", Some("2")),
        entry("y", Some("12")),
        entry("z", Some("2\n")),
    ];
    let (data, hash) = find_partitions(&entries, "nvme0n1");
    assert_eq!(data, "/dev/nvme0n1p2");
    assert_eq!(hash, "/dev/z");
}

#[test]
fn partitions_do_not_depend_on_the_order() {
    let mut entries = partitions();
    entries.reverse();
    assert_eq!(
        find_partitions(&entries, "vdb"),
        ("/dev/vdb1".to_owned(), "/dev/vdb2".to_owned())
    );
}

#[test]
fn a_missing_partition_is_named() {
    match try_find_partitions(&vec![entry("vdb2", Some("2\n"))], "vdb") {
        Ok(_) => panic!("accepted"),
        Err(e) => assert_eq!(e.message(), "addon device vdb: missing data partition (1)"),
    }
    match try_find_partitions(&vec![entry("vdb1", Some("1\n"))], "vdb") {
        Ok(_) => panic!("accepted"),
        Err(e) => assert_eq!(e.message(), "addon device vdb: missing hash partition (2)"),
    }
}

// === mount_addon ===

fn panic_message(action: Action) -> String {
    match action {
        Action::Panic { message } => message,
        other => panic!("{other:?}"),
    }
}

fn start() -> MountAddon {
    mount_addon("coco", &parse_verity_params("coco", PARAMS))
}

#[test]
fn an_addon_is_found_opened_and_mounted() {
    let m = start();
    match m.pending() {
        Action::ScanDir { path, attribute } => {
            assert_eq!(path, "/sys/block");
            assert_eq!(attribute, "serial");
        }
        other => panic!("{other:?}"),
    }
    let m = m.advance(Reply::Entries(sys_block()));
    match m.pending() {
        Action::ScanDir { path, attribute } => {
            assert_eq!(path, "/sys/block/vdb");
            assert_eq!(attribute, "partition");
        }
        other => panic!("{other:?}"),
    }
    let m = m.advance(Reply::Entries(partitions()));
    match m.pending() {
        Action::Run { command } => {
            assert_eq!(command.program, "/usr/sbin/veritysetup");
            assert_eq!(
                command.args,
                verity_args(
                    "addon-coco",
                    "/dev/vdb1",
                    "/dev/vdb2",
                    &parse_verity_params("coco", PARAMS)
                )
            );
        }
        other => panic!("{other:?}"),
    }
    let m = m.advance(Reply::Done);
    match m.pending() {
        Action::CreateDirAll { path } => assert_eq!(path, "/run/kata-addons/coco"),
        other => panic!("{other:?}"),
    }
    let m = m.advance(Reply::Done);
    match m.pending() {
        Action::Mount { call } => {
            assert_eq!(call.source, "/dev/mapper/addon-coco");
            assert_eq!(call.target, "/run/kata-addons/coco");
            assert_eq!(call.fstype, Some("erofs".to_owned()));
            assert!(call.flags.read_only && call.flags.no_suid && call.flags.no_dev);
            assert!(!call.flags.no_exec && !call.flags.bind);
        }
        other => panic!("{other:?}"),
    }
    let m = m.advance(Reply::Done);
    assert!(matches!(m.pending(), Action::Finish));
    assert!(matches!(m.advance(Reply::Failed).pending(), Action::Finish));
}

#[test]
fn every_failure_is_fatal() {
    let no_device = "addon coco: no block device with serial addon-coco";
    assert_eq!(panic_message(start().advance(Reply::Failed).pending()), no_device);
    assert_eq!(
        panic_message(start().advance(Reply::Entries(vec![])).pending()),
        no_device
    );
    let found = || start().advance(Reply::Entries(sys_block()));
    assert_eq!(
        panic_message(found().advance(Reply::Failed).pending()),
        "read_dir /sys/block/vdb"
    );
    assert_eq!(
        panic_message(found().advance(Reply::Entries(vec![])).pending()),
        "addon device vdb: missing data partition (1)"
    );
    let opening = || found().advance(Reply::Entries(partitions()));
    assert_eq!(
        panic_message(opening().advance(Reply::Failed).pending()),
        "run /usr/sbin/veritysetup"
    );
    let creating = || opening().advance(Reply::Done);
    assert_eq!(
        panic_message(creating().advance(Reply::Failed).pending()),
        "create_dir_all /run/kata-addons/coco"
    );
    let mounting = || creating().advance(Reply::Done);
    let failed = mounting().advance(Reply::Failed);
    let message = "mount addon coco (/dev/mapper/addon-coco) on /run/kata-addons/coco";
    assert_eq!(panic_message(failed.pending()), message);
    // and stays fatal
    assert_eq!(panic_message(failed.advance(Reply::Done).pending()), message);
}

#[test]
fn a_reply_to_something_else_changes_nothing() {
    let m = start().advance(Reply::Done).advance(Reply::IsDir(true));
    assert!(matches!(m, MountAddon::FindDevice { .. }));
    let m = m.advance(Reply::Entries(sys_block())).advance(Reply::Done);
    assert!(matches!(m, MountAddon::FindPartitions { .. }));
    let m = m.advance(Reply::Entries(partitions())).advance(Reply::Entries(partitions()));
    assert!(matches!(m, MountAddon::OpenVerity { .. }));
}

// === mount_all ===

/// Grants everything, on a machine with the devices of two addons, within the
/// number of requests that there can be for two, and returns what was mounted
/// where.
fn run_granted(cmdline: &str) -> Vec<(String, String)> {
    let mut mounts = vec![];
    let mut m = mount_all();
    let mut requests = 0;
    loop {
        assert!(requests <= 11);
        requests += 1;
        let reply = match m.pending() {
            Action::ReadFile { path } => {
                assert_eq!(path, "/proc/cmdline");
                Reply::Text(cmdline.to_owned())
            }
            Action::ScanDir { attribute, .. } if attribute == "serial" => {
                let mut devices = sys_block();
                devices.push(entry("vdc", Some("addon-gpu\n")));
                Reply::Entries(devices)
            }
            Action::ScanDir { .. } => Reply::Entries(partitions()),
            Action::Mount { call } => {
                mounts.push((call.source, call.target));
                Reply::Done
            }
            Action::Finish => return mounts,
            Action::Panic { message } => panic!("{message}"),
            _ => Reply::Done,
        };
        m = m.advance(reply);
    }
}

#[test]
fn every_declared_addon_is_mounted_in_order() {
    let mounts = run_granted(&format!(
        "kata.addon.gpu.verity_params={PARAMS} quiet kata.addon.coco.verity_params={PARAMS}"
    ));
    assert_eq!(
        mounts,
        vec![
            (
                "/dev/mapper/addon-gpu".to_owned(),
                nvrc::gpu::ROOT.to_owned()
            ),
            (
                "/dev/mapper/addon-coco".to_owned(),
                "/run/kata-addons/coco".to_owned()
            ),
        ]
    );
}

#[test]
fn without_addons_nothing_is_done() {
    let m = mount_all().advance(Reply::Text("ro quiet console=ttyS0".to_owned()));
    assert!(matches!(m, MountAll::Finished));
}

#[test]
fn a_malformed_addon_stops_everything_before_the_first_mount() {
    let m = mount_all().advance(Reply::Text(format!(
        "kata.addon.gpu.verity_params={PARAMS} kata.addon.coco.verity_params=salt=1"
    )));
    assert_eq!(
        panic_message(m.pending()),
        "addon coco: verity_params missing root_hash"
    );
}

#[test]
fn an_unreadable_command_line_is_fatal() {
    let m = mount_all().advance(Reply::Failed);
    assert_eq!(panic_message(m.pending()), "read /proc/cmdline");
    assert_eq!(
        panic_message(m.advance(Reply::Text(String::new())).pending()),
        "read /proc/cmdline"
    );
}

#[test]
fn a_failed_addon_stops_the_others() {
    let m = mount_all()
        .advance(Reply::Text(format!(
            "kata.addon.gpu.verity_params={PARAMS} kata.addon.coco.verity_params={PARAMS}"
        )))
        .advance(Reply::Entries(sys_block()));
    assert_eq!(
        panic_message(m.pending()),
        "addon gpu: no block device with serial addon-gpu"
    );
}
