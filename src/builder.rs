//! The build workspace of a job and the harvesting of its artifacts.
use crate::consts::PATH_TO_BUILDS;
use crate::digest::{blake2b_256, hex_lower, is_lower_hex};
use crate::text::{ends_with, has_suffix, join3};
use crate::util::generate_code_id;
use vstd::prelude::*;

verus! {

/// Suffix of the optimised program binary that a build leaves behind.
pub const WASM_SUFFIX: &'static str = ".opt.wasm";

/// Suffix of the interface definition that a build leaves behind.
pub const IDL_SUFFIX: &'static str = ".idl";

/// What a successful build yields.
#[derive(Clone, Debug)]
pub struct BuildArtifacts {
    /// Code identifier of the built binary.
    pub code_id: String,
    /// Text of the interface definition, when one was asked for and could be read.
    pub idl: Option<String>,
    /// File name of the binary without its `.opt.wasm` suffix.
    pub name: String,
}

/// Why a build produced nothing usable.
#[derive(Clone, Debug)]
pub enum BuildError {
    /// No `.opt.wasm` file was found in the workspace.
    FailedToBuildWasm,
    /// An interface definition was asked for and no `.idl` file was found.
    FailedToBuildIdl,
    /// The workspace or the container could not be handled; the text says why.
    Io(String),
}

/// Text of a build error.
pub open spec fn build_error_text(e: BuildError) -> Seq<char> {
    match e {
        BuildError::FailedToBuildWasm => "Failed to build wasm."@,
        BuildError::FailedToBuildIdl => "Failed to build idl file."@,
        BuildError::Io(m) => m@,
    }
}

impl BuildError {
    /// Text of the error.
    pub fn message(&self) -> (r: String)
        ensures
            r@ == build_error_text(*self),
    {
        match self {
            BuildError::FailedToBuildWasm => String::from_str("Failed to build wasm."),
            BuildError::FailedToBuildIdl => String::from_str("Failed to build idl file."),
            BuildError::Io(m) => m.clone(),
        }
    }
}

/// Host directory in which the job `id` is built.
pub open spec fn project_path(id: Seq<char>) -> Seq<char> {
    PATH_TO_BUILDS@ + "/"@ + id
}

/// Host directory in which the job `id` is built: `<builds root>/<id>`.
pub fn get_project_path(id: &str) -> (r: String)
    ensures
        r@ == project_path(id@),
{
    join3(PATH_TO_BUILDS, "/", id)
}

/// Index of the first name in `names` that ends with `suffix`.
pub open spec fn is_first_with_suffix(names: Seq<String>, suffix: Seq<char>, r: Option<usize>) -> bool {
    match r {
        Some(i) => i < names.len() && has_suffix(names[i as int]@, suffix) && forall|j: int|
            0 <= j < i ==> !has_suffix(#[trigger] names[j]@, suffix),
        None => forall|j: int| 0 <= j < names.len() ==> !has_suffix(#[trigger] names[j]@, suffix),
    }
}

/// The first of `names` that ends with `suffix`.
pub fn first_with_suffix(names: &Vec<String>, suffix: &str) -> (r: Option<usize>)
    ensures
        is_first_with_suffix(names@, suffix@, r),
{
    let mut i: usize = 0;
    while i < names.len()
        invariant
            i <= names@.len(),
            forall|j: int| 0 <= j < i ==> !has_suffix(#[trigger] names@[j]@, suffix@),
        decreases names@.len() - i,
    {
        if ends_with(names[i].as_str(), suffix) {
            return Some(i);
        }
        i = i + 1;
    }
    None
}

/// Where the artifacts stand among the files that a build left.
pub struct ArtifactFiles {
    /// Index of the first `.opt.wasm` file.
    pub wasm: Option<usize>,
    /// Index of the first `.idl` file.
    pub idl: Option<usize>,
}

/// Picks the first `.opt.wasm` and the first `.idl` file among the file names
/// of a build workspace.
pub fn locate_artifacts(names: &Vec<String>) -> (r: ArtifactFiles)
    ensures
        is_first_with_suffix(names@, WASM_SUFFIX@, r.wasm),
        is_first_with_suffix(names@, IDL_SUFFIX@, r.idl),
{
    ArtifactFiles { wasm: first_with_suffix(names, WASM_SUFFIX), idl: first_with_suffix(names, IDL_SUFFIX) }
}

/// A program binary read from the workspace.
pub struct WasmFile {
    /// File name, ending in `.opt.wasm`.
    pub file_name: String,
    /// Its bytes.
    pub code: Vec<u8>,
}

/// Name of a built program: its file name without the `.opt.wasm` suffix.
pub open spec fn artifact_name(file_name: Seq<char>) -> Seq<char> {
    file_name.subrange(0, file_name.len() - WASM_SUFFIX@.len())
}

/// The outcome of a build, from what it left in the workspace.
pub open spec fn build_outcome_ok(
    build_idl: bool,
    wasm: Option<WasmFile>,
    idl: Option<Option<String>>,
) -> bool {
    wasm is Some && !(build_idl && idl is None)
}

/// Turns what a build left into its artifacts. `wasm` is the binary, `None` when
/// no `.opt.wasm` file was found; `idl` is `None` when no `.idl` file was found,
/// `Some(None)` when one was found and could not be read.
pub fn assemble_artifacts(
    build_idl: bool,
    wasm: Option<WasmFile>,
    idl: Option<Option<String>>,
) -> (r: Result<BuildArtifacts, BuildError>)
    requires
        wasm matches Some(w) ==> has_suffix(w.file_name@, WASM_SUFFIX@),
    ensures
        wasm is None ==> r matches Err(BuildError::FailedToBuildWasm),
        wasm is Some && build_idl && idl is None ==> r matches Err(BuildError::FailedToBuildIdl),
        r is Ok <==> build_outcome_ok(build_idl, wasm, idl),
        r matches Ok(a) ==> {
            let w = wasm->0;
            &&& a.code_id@ == hex_lower(blake2b_256(w.code@))
            &&& is_lower_hex(a.code_id@)
            &&& a.name@ == artifact_name(w.file_name@)
            &&& a.idl == (if build_idl { idl->0 } else { None })
        },
{
    let w = match wasm {
        Some(w) => w,
        None => return Err(BuildError::FailedToBuildWasm),
    };
    let code_id = generate_code_id(w.code.as_slice());
    let n = w.file_name.as_str().unicode_len();
    let m = WASM_SUFFIX.unicode_len();
    let name = String::from_str(w.file_name.as_str().substring_char(0, n - m));
    let idl_text = if build_idl {
        match idl {
            Some(t) => t,
            None => return Err(BuildError::FailedToBuildIdl),
        }
    } else {
        None
    };
    Ok(BuildArtifacts { code_id, idl: idl_text, name })
}

} // verus!
