//! Fixed settings of the service.
use vstd::prelude::*;

verus! {

/// Host directory under which each job gets its own build workspace.
pub const PATH_TO_BUILDS: &'static str = "/tmp/builds";

/// Registry reference of the builder image; a version tag is appended.
pub const IMAGE_NAME: &'static str = "ghcr.io/gear-tech/sails-program-verifier";

/// Directory that receives one log file per job.
pub const LOGS_DIR: &'static str = "logs";

/// Where the job workspace is mounted inside the build container.
pub const MOUNT_TARGET: &'static str = "/mnt/target";

/// Builder image versions that submissions may ask for, oldest first.
pub const AVAILABLE_VERSIONS: [&'static str; 3] = ["0.7.1", "0.7.3", "0.8.0"];

/// Length of a generated verification id.
pub const ID_LEN: usize = 15;

/// Length of a normalised code identifier.
pub const CODE_ID_LEN: usize = 64;

/// The allow-list of versions, as text.
pub open spec fn allowed_versions() -> Seq<Seq<char>> {
    seq!["0.7.1"@, "0.7.3"@, "0.8.0"@]
}

} // verus!
