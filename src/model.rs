//! The records that the service keeps: verification jobs, verified codes and
//! interface definitions, with the text encodings of their enumerations.
use crate::text::same_text;
use vstd::prelude::*;

verus! {

/// Where a verification job stands.
#[derive(Clone, Copy, Debug, PartialEq, Eq, Structural)]
pub enum VerificationStatus {
    Pending,
    InProgress,
    Verified,
    Failed,
}

/// Stored name of each status.
pub open spec fn status_name(s: VerificationStatus) -> Seq<char> {
    match s {
        VerificationStatus::Pending => "pending"@,
        VerificationStatus::InProgress => "in_progress"@,
        VerificationStatus::Verified => "verified"@,
        VerificationStatus::Failed => "failed"@,
    }
}

/// The status whose stored name is `s`, if any.
pub open spec fn status_from_name(s: Seq<char>) -> Option<VerificationStatus> {
    if s == "pending"@ {
        Some(VerificationStatus::Pending)
    } else if s == "in_progress"@ {
        Some(VerificationStatus::InProgress)
    } else if s == "verified"@ {
        Some(VerificationStatus::Verified)
    } else if s == "failed"@ {
        Some(VerificationStatus::Failed)
    } else {
        None
    }
}

impl VerificationStatus {
    /// The stored name of the status.
    pub fn as_str(&self) -> (r: &'static str)
        ensures
            r@ == status_name(*self),
    {
        match self {
            VerificationStatus::Pending => "pending",
            VerificationStatus::InProgress => "in_progress",
            VerificationStatus::Verified => "verified",
            VerificationStatus::Failed => "failed",
        }
    }

    /// Decodes a stored name; unknown names give `None`.
    pub fn from_name(s: &str) -> (r: Option<VerificationStatus>)
        ensures
            r == status_from_name(s@),
    {
        if same_text(s, "pending") {
            Some(VerificationStatus::Pending)
        } else if same_text(s, "in_progress") {
            Some(VerificationStatus::InProgress)
        } else if same_text(s, "verified") {
            Some(VerificationStatus::Verified)
        } else if same_text(s, "failed") {
            Some(VerificationStatus::Failed)
        } else {
            None
        }
    }
}

/// Decoding the stored name of a status gives that status back.
pub proof fn lemma_status_name_round_trip(s: VerificationStatus)
    ensures
        status_from_name(status_name(s)) == Some(s),
{
    reveal_strlit("pending");
    reveal_strlit("in_progress");
    reveal_strlit("verified");
    reveal_strlit("failed");
    assert("pending"@.len() == 7);
    assert("in_progress"@.len() == 11);
    assert("verified"@.len() == 8);
    assert("failed"@.len() == 6);
}

/// The chain on which a program's code is deployed.
#[derive(Clone, Copy, Debug, PartialEq, Eq, Structural)]
pub enum Network {
    VaraMainnet,
    VaraTestnet,
}

/// Wire and stored name of each network.
pub open spec fn network_name(n: Network) -> Seq<char> {
    match n {
        Network::VaraMainnet => "vara_mainnet"@,
        Network::VaraTestnet => "vara_testnet"@,
    }
}

/// The network whose name is `s`, if any.
pub open spec fn network_from_name(s: Seq<char>) -> Option<Network> {
    if s == "vara_mainnet"@ {
        Some(Network::VaraMainnet)
    } else if s == "vara_testnet"@ {
        Some(Network::VaraTestnet)
    } else {
        None
    }
}

impl Network {
    /// The name of the network.
    pub fn as_str(&self) -> (r: &'static str)
        ensures
            r@ == network_name(*self),
    {
        match self {
            Network::VaraMainnet => "vara_mainnet",
            Network::VaraTestnet => "vara_testnet",
        }
    }

    /// Decodes a network name; unknown names give `None`.
    pub fn from_name(s: &str) -> (r: Option<Network>)
        ensures
            r == network_from_name(s@),
    {
        if same_text(s, "vara_mainnet") {
            Some(Network::VaraMainnet)
        } else if same_text(s, "vara_testnet") {
            Some(Network::VaraTestnet)
        } else {
            None
        }
    }
}

impl TryFrom<String> for Network {
    type Error = crate::error::VerifierError;

    fn try_from(name: String) -> (r: Result<Network, crate::error::VerifierError>) {
        match Network::from_name(name.as_str()) {
            Some(n) => Ok(n),
            None => Err(crate::error::VerifierError::UnsupportedNetwork),
        }
    }
}

impl vstd::std_specs::convert::TryFromSpecImpl<String> for Network {
    open spec fn obeys_try_from_spec() -> bool {
        true
    }

    open spec fn try_from_spec(name: String) -> Result<Network, crate::error::VerifierError> {
        match network_from_name(name@) {
            Some(n) => Ok(n),
            None => Err(crate::error::VerifierError::UnsupportedNetwork),
        }
    }
}

/// Decoding the name of a network gives that network back.
pub proof fn lemma_network_name_round_trip(n: Network)
    ensures
        network_from_name(network_name(n)) == Some(n),
{
    reveal_strlit("vara_mainnet");
    reveal_strlit("vara_testnet");
    assert("vara_mainnet"@[5] == 'm');
    assert("vara_testnet"@[5] == 't');
}

/// A copy of an optional string.
pub fn clone_opt(o: &Option<String>) -> (r: Option<String>)
    ensures
        r == *o,
{
    match o {
        Some(s) => Some(s.clone()),
        None => None,
    }
}

/// A successfully verified program code.
#[derive(Clone, Debug)]
pub struct Code {
    /// The code identifier: 64 lowercase hex digits.
    pub id: String,
    /// Key of the interface definition built with it, if any.
    pub idl_hash: Option<String>,
    /// Name of the built artifact, without its `.opt.wasm` suffix.
    pub name: String,
    /// Repository that reproduced this code.
    pub repo_link: String,
}

impl Code {
    /// A field-by-field copy.
    pub fn duplicate(&self) -> (r: Code)
        ensures
            r == *self,
    {
        Code {
            id: self.id.clone(),
            idl_hash: clone_opt(&self.idl_hash),
            name: self.name.clone(),
            repo_link: self.repo_link.clone(),
        }
    }
}

/// An interface definition, keyed by the hash of its content.
#[derive(Clone, Debug)]
pub struct Idl {
    pub id: String,
    pub content: String,
}

impl Idl {
    /// A field-by-field copy.
    pub fn duplicate(&self) -> (r: Idl)
        ensures
            r == *self,
    {
        Idl { id: self.id.clone(), content: self.content.clone() }
    }
}

/// A verification job.
#[derive(Clone, Debug)]
pub struct Verification {
    /// Job id: 15 ASCII letters and digits.
    pub id: String,
    /// Source repository.
    pub repo_link: String,
    /// Expected code identifier, normalised.
    pub code_id: String,
    /// Package to build, when the repository holds several.
    pub project_name: Option<String>,
    /// Manifest to build from; exclusive with `project_name`.
    pub manifest_path: Option<String>,
    /// Build-context subdirectory.
    pub base_path: Option<String>,
    /// Whether the interface definition is to be built and kept.
    pub build_idl: bool,
    /// Builder image version, from the allow-list.
    pub version: String,
    pub status: VerificationStatus,
    pub network: Network,
    /// Why the job failed, once it has.
    pub failed_reason: Option<String>,
    /// Submission time in milliseconds since the Unix epoch; orders pending jobs.
    pub created_at: u64,
}

impl Verification {
    /// A field-by-field copy.
    pub fn duplicate(&self) -> (r: Verification)
        ensures
            r == *self,
    {
        Verification {
            id: self.id.clone(),
            repo_link: self.repo_link.clone(),
            code_id: self.code_id.clone(),
            project_name: clone_opt(&self.project_name),
            manifest_path: clone_opt(&self.manifest_path),
            base_path: clone_opt(&self.base_path),
            build_idl: self.build_idl,
            version: self.version.clone(),
            status: self.status,
            network: self.network,
            failed_reason: clone_opt(&self.failed_reason),
            created_at: self.created_at,
        }
    }
}

} // verus!
