//! Locating the external upscaling binary. The search order is fixed: first a
//! binary bundled beside the running application's own executable, then one
//! discoverable on the system search path. The caller performs the two
//! existence probes and hands their results in as plain values.

use vstd::prelude::*;
use vstd::string::StrSliceExecFns;
use vstd::string::StringExecFns;

use crate::error::Error;
use crate::paths::dir_prefix;
use crate::paths::dir_split_index;
use crate::paths::lemma_dir_prefix_len_bounds;

verus! {

/// The file name of the external upscaling binary.
pub open spec fn exe_name() -> Seq<char> {
    "upscayl-bin"@
}

/// The path where a bundled binary would sit: the upscaler's file name in the
/// directory of the running application's own executable.
pub open spec fn bundled_path(current_exe: Seq<char>) -> Seq<char> {
    dir_prefix(current_exe) + exe_name()
}

/// The path the caller must probe for a bundled binary.
pub fn bundled_exe_path(current_exe: &str) -> (r: String)
    ensures
        r@ == bundled_path(current_exe@),
{
    let k = dir_split_index(current_exe);
    proof {
        lemma_dir_prefix_len_bounds(current_exe@);
    }
    let dir = current_exe.substring_char(0, k);
    let mut r = dir.to_owned();
    r.append("upscayl-bin");
    proof {
        assert(r@ =~= bundled_path(current_exe@));
    }
    r
}

/// Resolves the path of the external upscaling binary from the caller's
/// probes: `current_exe` is the running application's own path, when it could
/// be determined; `bundled_exists` says whether a file exists at
/// `bundled_exe_path(current_exe)`; `path_hit` is where the system search
/// path finds the binary, if anywhere. Fails with
/// `FailedToGetCurrentExecutablePath` when the application's own path is
/// unknown, and with `UpscaylNotInPath` when neither probe found a binary.
pub fn locate(current_exe: Option<String>, bundled_exists: bool, path_hit: Option<String>) -> (r:
    Result<String, Error>)
    ensures
        current_exe is None ==> (r matches Err(e)
            && e matches Error::FailedToGetCurrentExecutablePath(u) && u is None),
        current_exe is Some && bundled_exists ==> (r matches Ok(p) && p@ == bundled_path(
            current_exe->0@,
        )),
        current_exe is Some && !bundled_exists && path_hit is Some ==> (r matches Ok(p) && p
            == path_hit->0),
        current_exe is Some && !bundled_exists && path_hit is None ==> (r matches Err(e)
            && e matches Error::UpscaylNotInPath(u) && u is None),
{
    let ce = match current_exe {
        None => {
            return Err(Error::FailedToGetCurrentExecutablePath(None));
        },
        Some(ce) => ce,
    };
    if bundled_exists {
        return Ok(bundled_exe_path(ce.as_str()));
    }
    match path_hit {
        Some(ph) => Ok(ph),
        None => Err(Error::UpscaylNotInPath(None)),
    }
}

} // verus!
