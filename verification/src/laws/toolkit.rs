//! Laws of the calls of nvidia-ctk.

use vstd::prelude::*;
use crate::gpu::{resolved, ROOT};
use crate::toolkit::{cdi_args, ctk_command, search_path_arg, NVIDIA_CTK};

verus! {

/// The CDI spec is generated with four fixed arguments, then one for each library
/// directory, in order and with the directory as it was given, and then, if there
/// is a hook, one with its path as it was given; and with nothing else.
pub proof fn law_cdi_args(paths: Seq<Seq<char>>, hook: Option<Seq<char>>)
    ensures
        ({
            let args = cdi_args(paths, hook);
            &&& args.len() == 4 + paths.len() + (if hook is Some {
                1int
            } else {
                0int
            })
            &&& args[0] == "-d"@
            &&& args[1] == "cdi"@
            &&& args[2] == "generate"@
            &&& args[3] == "--output=/var/run/cdi/nvidia.yaml"@
            &&& hook is Some ==> args[args.len() - 1] == "--nvidia-cdi-hook-path="@ + hook->0
        }),
        forall|i: int|
            0 <= i < paths.len() ==> #[trigger] cdi_args(paths, hook)[4 + i]
                == "--library-search-path="@ + paths[i],
{
    let args = cdi_args(paths, hook);
    assert forall|i: int| 0 <= i < paths.len() implies #[trigger] args[4 + i]
        == "--library-search-path="@ + paths[i] by {
        assert(args[4 + i] == search_path_arg(paths[i]));
    }
}

/// The program is called where it lives, with the arguments as they were given.
pub proof fn law_ctk_command(present: bool, args: Seq<Seq<char>>)
    ensures
        ctk_command(present, args).args == args,
        present ==> ctk_command(present, args).program == "/run/kata-addons/gpu/bin/nvidia-ctk"@,
        !present ==> ctk_command(present, args).program == "/bin/nvidia-ctk"@,
{
    reveal_strlit("/run/kata-addons/gpu/bin/nvidia-ctk");
    reveal_strlit("/run/kata-addons/gpu");
    reveal_strlit("/bin/nvidia-ctk");
    assert(resolved(true, ROOT@, NVIDIA_CTK@) =~= "/run/kata-addons/gpu/bin/nvidia-ctk"@);
}

} // verus!
