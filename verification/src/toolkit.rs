//! NVIDIA Container Toolkit (nvidia-ctk) integration.
//!
//! Generates CDI (Container Device Interface) specs so container runtimes
//! can discover and mount GPU devices without needing the legacy hook.

use vstd::prelude::*;
use crate::gpu::{resolve, resolved, ROOT};
use crate::host::{Command, CommandView};

verus! {

pub const NVIDIA_CTK: &'static str = "/bin/nvidia-ctk";

/// The call of nvidia-ctk with the given arguments.
pub open spec fn ctk_command(present: bool, args: Seq<Seq<char>>) -> CommandView {
    CommandView { program: resolved(present, ROOT@, NVIDIA_CTK@), args }
}

/// The argument that names a directory with driver libraries.
pub open spec fn search_path_arg(path: Seq<char>) -> Seq<char> {
    "--library-search-path="@ + path
}

/// The arguments that generate the CDI spec.
pub open spec fn cdi_args(paths: Seq<Seq<char>>, hook: Option<Seq<char>>) -> Seq<Seq<char>> {
    seq!["-d"@, "cdi"@, "generate"@, "--output=/var/run/cdi/nvidia.yaml"@] + paths.map_values(
        |path: Seq<char>| search_path_arg(path),
    ) + (match hook {
        Some(path) => seq!["--nvidia-cdi-hook-path="@ + path],
        None => Seq::empty(),
    })
}

/// Run nvidia-ctk with given arguments.
pub fn ctk(present: bool, args: Vec<String>) -> (res: Command)
    ensures
        res@ == ctk_command(present, args.deep_view()),
{
    Command { program: resolve(present, NVIDIA_CTK), args }
}

/// Generate CDI spec for GPU device discovery.
/// CDI allows container runtimes (containerd, CRI-O) to inject GPU devices
/// without nvidia-docker. The spec is written to /var/run/cdi/nvidia.yaml
/// where runtimes expect to find it.
///
/// nvidia-ctk does not honour `LD_LIBRARY_PATH`; it locates the driver
/// libraries to mount via the ldcache and standard paths. With composable
/// images the GPU libraries live in the addon, so the addon lib dirs are passed
/// via `--library-search-path` (there are none for the monolithic image).
///
/// The generated spec also records the path to `nvidia-cdi-hook`, which the
/// kata-agent executes to create the libcuda.so.1 symlink and refresh the
/// ldcache in the container. nvidia-ctk defaults that to `/usr/bin`; where the
/// binary lives elsewhere, its location is passed via `--nvidia-cdi-hook-path`.
pub fn nvidia_ctk_cdi(
    present: bool,
    library_search_paths: &Vec<String>,
    cdi_hook_path: Option<&str>,
) -> (res: Command)
    ensures
        res@ == ctk_command(
            present,
            cdi_args(
                library_search_paths.deep_view(),
                match cdi_hook_path {
                    Some(path) => Some(path@),
                    None => None,
                },
            ),
        ),
{
    let mut args: Vec<String> = vec![
        "-d".to_owned(),
        "cdi".to_owned(),
        "generate".to_owned(),
        "--output=/var/run/cdi/nvidia.yaml".to_owned(),
    ];
    let ghost paths = library_search_paths.deep_view();
    let ghost base = args.deep_view();
    assert(base =~= seq!["-d"@, "cdi"@, "generate"@, "--output=/var/run/cdi/nvidia.yaml"@]);
    let ghost arg = |path: Seq<char>| search_path_arg(path);
    let mut i: usize = 0;
    assert(args.deep_view() =~= base + paths.map_values(arg).take(0));
    while i < library_search_paths.len()
        invariant
            i <= library_search_paths.len(),
            paths == library_search_paths.deep_view(),
            arg == (|path: Seq<char>| search_path_arg(path)),
            args.deep_view() == base + paths.map_values(arg).take(i as int),
        decreases library_search_paths.len() - i,
    {
        let ghost before = args.deep_view();
        args.push("--library-search-path=".to_owned().concat(library_search_paths[i].as_str()));
        assert(args.deep_view() =~= before.push(search_path_arg(paths[i as int])));
        assert(args.deep_view() =~= base + paths.map_values(arg).take(i + 1));
        i = i + 1;
    }
    assert(paths.map_values(arg).take(i as int) =~= paths.map_values(arg));
    let ghost before = args.deep_view();
    if let Some(path) = cdi_hook_path {
        args.push("--nvidia-cdi-hook-path=".to_owned().concat(path));
        assert(args.deep_view() =~= before + seq!["--nvidia-cdi-hook-path="@ + path@]);
    } else {
        assert(args.deep_view() =~= before + Seq::empty());
    }
    ctk(present, args)
}

} // verus!
