//! The job-acceptance contract and the shapes of requests and responses that
//! the HTTP layer exchanges with the core.
use crate::consts::allowed_versions;
use crate::error::VerifierError;
use crate::model::{
    clone_opt, network_from_name, status_name, Code, Network, Verification, VerificationStatus,
};
use crate::store::{exclusive, has_code, has_verification, store_wf, Store};
use crate::text::same_text;
use crate::util::{check_docker_version, normalized_code_id, validate_and_get_code_id};
use vstd::prelude::*;

verus! {

/// Which part of the repository to build.
#[derive(Clone, Debug)]
pub enum Project {
    /// The repository root.
    Root,
    /// Name of the package to be built.
    Package(String),
    /// Manifest path of the package.
    ManifestPath(String),
}

/// A request to verify a deployed code against its source.
#[derive(Clone, Debug)]
pub struct VerifyRequest {
    /// Link to the repository containing the code to be verified.
    pub repo_link: String,
    /// Version of the builder image to use.
    pub version: String,
    /// Project to verify; the repository root when absent.
    pub project: Option<Project>,
    /// Base path of the package to be built.
    pub base_path: Option<String>,
    /// Network where the code of the program is deployed.
    pub network: String,
    /// Id of the deployed code.
    pub code_id: String,
    /// Whether to build the interface definition; yes when absent.
    pub build_idl: Option<bool>,
}

/// Answer to an accepted request.
#[derive(Clone, Debug)]
pub struct VerifyResponse {
    /// Id of the verification.
    pub id: String,
}

/// A query by one id.
#[derive(Clone, Debug)]
pub struct IdQueryParams {
    pub id: String,
}

/// A query by several code ids.
#[derive(Clone, Debug)]
pub struct CodeIdsQueryParams {
    pub ids: Vec<String>,
}

/// State of a verification as reported to clients.
#[derive(Clone, Debug)]
pub struct StatusResponse {
    /// Stored name of the status.
    pub status: String,
    /// Reason for failure, if any.
    pub failed_reason: Option<String>,
    pub code_id: String,
    pub repo_link: String,
    pub project_name: Option<String>,
    pub base_path: Option<String>,
    pub version: String,
    pub manifest_path: Option<String>,
    /// Submission time in milliseconds since the Unix epoch.
    pub created_at: u64,
}

/// One entry of a query by several code ids.
#[derive(Clone, Debug)]
pub struct CodesResponseEntry {
    /// The id as requested.
    pub id: String,
    /// The verified code, when there is one.
    pub code: Option<Code>,
}

/// Package and manifest selectors of a project choice.
pub open spec fn project_selectors(p: Option<Project>) -> (Option<String>, Option<String>) {
    match p {
        Some(Project::Package(n)) => (Some(n), None),
        Some(Project::ManifestPath(m)) => (None, Some(m)),
        _ => (None, None),
    }
}

/// Why a request is refused, checked in this order: version, network, code id.
pub open spec fn intake_error(req: VerifyRequest) -> Option<VerifierError> {
    if !allowed_versions().contains(req.version@) {
        Some(VerifierError::UnsupportedVersion)
    } else if network_from_name(req.network@) is None {
        Some(VerifierError::UnsupportedNetwork)
    } else if normalized_code_id(req.code_id@) is None {
        Some(VerifierError::InvalidCodeId)
    } else {
        None
    }
}

/// `v` is the pending job that an accepted request `req` becomes under id
/// `id` at time `created_at`.
pub open spec fn is_intake_record(req: VerifyRequest, id: String, created_at: u64, v: Verification) -> bool {
    &&& v.id == id
    &&& v.repo_link == req.repo_link
    &&& normalized_code_id(req.code_id@) == Some(v.code_id@)
    &&& (v.project_name, v.manifest_path) == project_selectors(req.project)
    &&& v.base_path == req.base_path
    &&& v.build_idl == match req.build_idl {
        Some(b) => b,
        None => true,
    }
    &&& v.version == req.version
    &&& v.status == VerificationStatus::Pending
    &&& network_from_name(req.network@) == Some(v.network)
    &&& v.failed_reason is None
    &&& v.created_at == created_at
}

/// Turns a request into a pending job with id `id`, submitted at `created_at`.
pub fn new_verification(req: VerifyRequest, id: String, created_at: u64) -> (r: Result<Verification, VerifierError>)
    ensures
        intake_error(req) matches Some(e) ==> r == Err::<Verification, VerifierError>(e),
        intake_error(req) is None ==> (r matches Ok(v) && is_intake_record(req, id, created_at, v)),
{
    if check_docker_version(req.version.as_str()).is_err() {
        return Err(VerifierError::UnsupportedVersion);
    }
    let (project_name, manifest_path) = match req.project {
        Some(Project::Package(n)) => (Some(n), None),
        Some(Project::ManifestPath(m)) => (None, Some(m)),
        _ => (None, None),
    };
    let network = match Network::from_name(req.network.as_str()) {
        Some(n) => n,
        None => return Err(VerifierError::UnsupportedNetwork),
    };
    let code_id = match validate_and_get_code_id(req.code_id.as_str()) {
        Ok(c) => c,
        Err(e) => return Err(e),
    };
    let build_idl = match req.build_idl {
        Some(b) => b,
        None => true,
    };
    Ok(Verification {
        id,
        repo_link: req.repo_link,
        code_id,
        project_name,
        manifest_path,
        base_path: req.base_path,
        build_idl,
        version: req.version,
        status: VerificationStatus::Pending,
        network,
        failed_reason: None,
        created_at,
    })
}

impl Store {
    /// Accepts a request: validates it and stores it as a pending job with id
    /// `id`, submitted at `created_at`; returns the id. Refused with the first
    /// failing check, or with `DuplicateId` when the id is taken.
    pub fn submit(&mut self, req: VerifyRequest, id: String, created_at: u64) -> (r: Result<String, VerifierError>)
        requires
            store_wf(old(self)@),
        ensures
            store_wf(final(self)@),
            intake_error(req) matches Some(e) ==> r == Err::<String, VerifierError>(e),
            intake_error(req) is None && has_verification(old(self)@.verifications, id@) ==> r
                == Err::<String, VerifierError>(VerifierError::DuplicateId),
            r is Err ==> final(self)@ == old(self)@,
            r is Ok <==> intake_error(req) is None && !has_verification(old(self)@.verifications, id@),
            r matches Ok(rid) ==> rid == id && exists|v: Verification|
                is_intake_record(req, id, created_at, v) && final(self)@.verifications.contains(v),
            final(self)@.codes == old(self)@.codes,
            final(self)@.idls == old(self)@.idls,
            exclusive(old(self)@.verifications) ==> exclusive(final(self)@.verifications),
    {
        let rid = id.clone();
        let v = match new_verification(req, id, created_at) {
            Ok(v) => v,
            Err(e) => return Err(e),
        };
        let ghost gv = v;
        if self.insert_verification(v) {
            proof {
                let p = choose|p: int|
                    crate::store::is_insert_position(old(self)@.verifications, gv, p)
                        && self@.verifications == old(self)@.verifications.insert(p, gv);
                assert(self@.verifications[p] == gv);
            }
            Ok(rid)
        } else {
            Err(VerifierError::DuplicateId)
        }
    }
}

impl StatusResponse {
    /// The status report of job `v`.
    pub fn from_verification(v: &Verification) -> (r: StatusResponse)
        ensures
            r.status@ == status_name(v.status),
            r.failed_reason == v.failed_reason,
            r.code_id == v.code_id,
            r.repo_link == v.repo_link,
            r.project_name == v.project_name,
            r.base_path == v.base_path,
            r.version == v.version,
            r.manifest_path == v.manifest_path,
            r.created_at == v.created_at,
    {
        StatusResponse {
            status: String::from_str(v.status.as_str()),
            failed_reason: clone_opt(&v.failed_reason),
            code_id: v.code_id.clone(),
            repo_link: v.repo_link.clone(),
            project_name: clone_opt(&v.project_name),
            base_path: clone_opt(&v.base_path),
            version: v.version.clone(),
            manifest_path: clone_opt(&v.manifest_path),
            created_at: v.created_at,
        }
    }
}

/// The entry owed for requested id `id` when the codes found are `found`:
/// the code whose id is the normalised form of `id`, if any.
pub open spec fn is_codes_entry(id: String, found: Seq<Code>, e: CodesResponseEntry) -> bool {
    &&& e.id == id
    &&& match normalized_code_id(id@) {
        None => e.code is None,
        Some(t) => (e.code is Some <==> has_code(found, t)) && (e.code matches Some(c) ==> c.id@ == t
            && found.contains(c)),
    }
}

/// Answer to a query by several code ids: one entry per requested id, in
/// request order, holding the code found for its normalised form. Ids that
/// are not valid code ids get an empty entry.
pub fn codes_response(ids: &Vec<String>, found: &Vec<Code>) -> (r: Vec<CodesResponseEntry>)
    ensures
        r@.len() == ids@.len(),
        forall|k: int| 0 <= k < r@.len() ==> is_codes_entry(ids@[k], found@, #[trigger] r@[k]),
{
    let mut out: Vec<CodesResponseEntry> = Vec::new();
    let mut k: usize = 0;
    while k < ids.len()
        invariant
            k <= ids@.len(),
            out@.len() == k,
            forall|j: int| 0 <= j < k ==> is_codes_entry(ids@[j], found@, #[trigger] out@[j]),
        decreases ids@.len() - k,
    {
        let code = match validate_and_get_code_id(ids[k].as_str()) {
            Err(_) => None,
            Ok(t) => {
                let mut hit: Option<Code> = None;
                let mut i: usize = 0;
                while i < found.len()
                    invariant
                        i <= found@.len(),
                        hit is None ==> forall|j: int| 0 <= j < i ==> (#[trigger] found@[j]).id@ != t@,
                        hit matches Some(c) ==> c.id@ == t@ && found@.contains(c),
                    decreases found@.len() - i,
                {
                    if hit.is_none() && same_text(found[i].id.as_str(), t.as_str()) {
                        hit = Some(found[i].duplicate());
                    }
                    i = i + 1;
                }
                hit
            },
        };
        out.push(CodesResponseEntry { id: ids[k].clone(), code });
        k = k + 1;
    }
    out
}

} // verus!
