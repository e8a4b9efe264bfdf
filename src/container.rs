//! What a build container is made of: its image reference, its environment,
//! the file its logs go to, and the recipe of a locally built builder image.
use crate::consts::{IMAGE_NAME, LOGS_DIR};
use crate::model::Verification;
use crate::text::{join2, join3};
use vstd::prelude::*;

verus! {

/// Image reference of a builder version: `<registry>:<version>`.
pub open spec fn image_ref_text(version: Seq<char>) -> Seq<char> {
    IMAGE_NAME@ + ":"@ + version
}

/// Image reference of a builder version: `<registry>:<version>`.
pub fn image_ref(version: &str) -> (r: String)
    ensures
        r@ == image_ref_text(version@),
{
    join3(IMAGE_NAME, ":", version)
}

/// Text of an optional field; empty when absent.
pub open spec fn opt_text(o: Option<String>) -> Seq<char> {
    match o {
        Some(s) => s@,
        None => Seq::empty(),
    }
}

fn opt_str(o: &Option<String>) -> (r: &str)
    ensures
        r@ == opt_text(*o),
{
    match o {
        Some(s) => s.as_str(),
        None => {
            proof {
                reveal_strlit("");
            }
            ""
        },
    }
}

/// Environment handed to the builder image for job `v`.
pub open spec fn build_env_text(v: Verification) -> Seq<Seq<char>> {
    let base = seq![
        "REPO_URL="@ + v.repo_link@,
        "PROJECT_NAME="@ + opt_text(v.project_name),
        "MANIFEST_PATH="@ + opt_text(v.manifest_path),
        "BASE_PATH="@ + opt_text(v.base_path),
    ];
    if v.build_idl {
        base.push("BUILD_IDL=true"@)
    } else {
        base
    }
}

/// Views of a list of strings.
pub open spec fn texts(v: Seq<String>) -> Seq<Seq<char>> {
    v.map_values(|s: String| s@)
}

/// Environment of the build container: the repository, the package or manifest
/// selector and the base path (empty when absent), and `BUILD_IDL=true` when
/// an interface definition is asked for.
pub fn build_env(v: &Verification) -> (r: Vec<String>)
    ensures
        texts(r@) == build_env_text(*v),
{
    let mut env: Vec<String> = Vec::new();
    env.push(join2("REPO_URL=", v.repo_link.as_str()));
    env.push(join2("PROJECT_NAME=", opt_str(&v.project_name)));
    env.push(join2("MANIFEST_PATH=", opt_str(&v.manifest_path)));
    env.push(join2("BASE_PATH=", opt_str(&v.base_path)));
    if v.build_idl {
        env.push(String::from_str("BUILD_IDL=true"));
    }
    assert(texts(env@) =~= build_env_text(*v));
    env
}

/// File that receives the container output of job `id`: `<logs>/<id>.log`.
pub open spec fn log_file_text(id: Seq<char>) -> Seq<char> {
    LOGS_DIR@ + "/"@ + id + ".log"@
}

/// File that receives the container output of job `id`.
pub fn log_file_path(id: &str) -> (r: String)
    ensures
        r@ == log_file_text(id@),
{
    join3(LOGS_DIR, "/", id).concat(".log")
}

/// Start of a builder-image recipe, up to the version tag of its base image.
pub const DOCKERFILE_HEAD: &'static str = "\nFROM ghcr.io/gear-tech/sails-program-builder:";

/// Rest of a builder-image recipe after the version tag.
pub const DOCKERFILE_TAIL: &'static str =
    "\nWORKDIR /scripts\nCOPY build.sh .\nRUN mkdir /mnt/build\nWORKDIR /app\nCMD [\"/bin/sh\", \"../scripts/build.sh\"]\n";

/// Recipe of the builder image for `version`.
pub fn verifier_dockerfile(version: &str) -> (r: String)
    ensures
        r@ == DOCKERFILE_HEAD@ + version@ + DOCKERFILE_TAIL@,
{
    join3(DOCKERFILE_HEAD, version, DOCKERFILE_TAIL)
}

/// File name under which the recipe of `version` is written.
pub fn verifier_dockerfile_name(version: &str) -> (r: String)
    ensures
        r@ == "Dockerfile-verifier-"@ + version@,
{
    join2("Dockerfile-verifier-", version)
}

} // verus!
