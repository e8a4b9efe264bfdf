//! Decisions of the verification scheduler: how many jobs a tick may start,
//! and the claim, on-chain and commit stages of a job, applied to a store.
use crate::builder::{build_error_text, BuildArtifacts, BuildError};
use crate::digest::{blake2b_256, hex_lower};
use crate::model::{Code, Idl, Verification, VerificationStatus};
use crate::store::{
    exclusive, first_pending, has_code, in_progress_elsewhere, lemma_pending_of_len,
    lemma_with_status_keeps_exclusive, store_wf,
    unique_verification_ids, with_code, with_idl, with_status, Store, StoreView,
};
use crate::text::join2;
use crate::util::hash_idl;
use vstd::prelude::*;
use vstd::utf8::encode_utf8;

verus! {

/// Most jobs that may run at once.
pub const MAX_VERIFS_IN_PROGRESS: i64 = 10;

/// Seconds between two polls for pending jobs.
pub const CHECK_INTERVAL_SECS: u64 = 30;

/// Failure reason of a job whose network has no probe.
pub const UNSUPPORTED_NETWORK: &'static str = "Unsupported network";

/// Failure reason of a job whose code is not on chain.
pub const CODE_NOT_ON_CHAIN: &'static str = "Code doesn't exist on chain";

/// Failure reason of a job whose build gave another code identifier.
pub const CODE_ID_MISMATCH: &'static str = "Code ID mismatch";

/// Start of the failure reason of a job whose build failed.
pub const BUILD_FAILED_PREFIX: &'static str = "Failed to build project. ";

/// How many pending jobs a tick may start: `None` skips the tick.
pub open spec fn batch_limit(in_progress: int, max_in_progress: int) -> Option<int> {
    if in_progress >= max_in_progress {
        None
    } else {
        Some(max_in_progress - in_progress)
    }
}

/// How many pending jobs a tick may start while `in_progress` run: none when
/// the cap is reached, else the room left under it.
pub fn pending_batch_limit(in_progress: i64, max_in_progress: i64) -> (r: Option<i64>)
    requires
        0 <= in_progress,
    ensures
        r matches Some(l) ==> batch_limit(in_progress as int, max_in_progress as int) == Some(l as int),
        r is None ==> batch_limit(in_progress as int, max_in_progress as int) is None,
{
    if in_progress >= max_in_progress {
        None
    } else {
        Some(max_in_progress - in_progress)
    }
}

/// A tick that starts no more jobs than its batch limit keeps the number of
/// running jobs within the cap.
pub proof fn lemma_tick_respects_cap(in_progress: int, max_in_progress: int, started: int)
    requires
        0 <= in_progress <= max_in_progress,
        0 <= started,
        batch_limit(in_progress, max_in_progress) is None ==> started == 0,
        batch_limit(in_progress, max_in_progress) matches Some(l) ==> started <= l,
    ensures
        in_progress + started <= max_in_progress,
{
}

/// What the claim stage decided.
#[derive(Clone, Copy, Debug, PartialEq, Eq, Structural)]
pub enum ClaimOutcome {
    /// The code is already verified; the job is marked verified without a build.
    AlreadyVerified,
    /// Another job for the same code is in progress; this one waits as pending.
    InFlight,
    /// The job holds the code and goes on to the on-chain check.
    Proceed,
}

/// Outcome of a claim from what the store showed: whether the code is
/// already verified, and whether another job for it is in progress.
pub open spec fn claim_outcome_of(code_known: bool, in_flight: bool) -> ClaimOutcome {
    if code_known {
        ClaimOutcome::AlreadyVerified
    } else if in_flight {
        ClaimOutcome::InFlight
    } else {
        ClaimOutcome::Proceed
    }
}

/// Decides a claim: an already verified code wins over a job in flight.
pub fn claim_decision(code_known: bool, in_flight: bool) -> (r: ClaimOutcome)
    ensures
        r == claim_outcome_of(code_known, in_flight),
{
    if code_known {
        ClaimOutcome::AlreadyVerified
    } else if in_flight {
        ClaimOutcome::InFlight
    } else {
        ClaimOutcome::Proceed
    }
}

impl ClaimOutcome {
    /// Status the claimed job is left in.
    pub fn status(&self) -> (r: VerificationStatus)
        ensures
            r == claim_status(*self),
    {
        match self {
            ClaimOutcome::AlreadyVerified => VerificationStatus::Verified,
            ClaimOutcome::InFlight => VerificationStatus::Pending,
            ClaimOutcome::Proceed => VerificationStatus::InProgress,
        }
    }
}

/// Outcome of claiming job `v` in a store holding `m`.
pub open spec fn claim_outcome(m: StoreView, v: Verification) -> ClaimOutcome {
    claim_outcome_of(
        has_code(m.codes, v.code_id@),
        in_progress_elsewhere(m.verifications, v.code_id@, v.id@),
    )
}

/// Status a job is left in by each claim outcome.
pub open spec fn claim_status(o: ClaimOutcome) -> VerificationStatus {
    match o {
        ClaimOutcome::AlreadyVerified => VerificationStatus::Verified,
        ClaimOutcome::InFlight => VerificationStatus::Pending,
        ClaimOutcome::Proceed => VerificationStatus::InProgress,
    }
}

/// Every stored job with the id of `v` is for the code of `v`.
pub open spec fn job_matches(vs: Seq<Verification>, v: Verification) -> bool {
    forall|i: int| 0 <= i < vs.len() && (#[trigger] vs[i]).id@ == v.id@ ==> vs[i].code_id@ == v.code_id@
}

proof fn lemma_with_status_twice(
    vs: Seq<Verification>,
    id: Seq<char>,
    a: VerificationStatus,
    ra: Option<String>,
    b: VerificationStatus,
    rb: Option<String>,
)
    ensures
        with_status(with_status(vs, id, a, ra), id, b, rb) == with_status(vs, id, b, rb),
{
    assert(with_status(with_status(vs, id, a, ra), id, b, rb) =~= with_status(vs, id, b, rb));
}

proof fn lemma_elsewhere_ignores_own(
    vs: Seq<Verification>,
    id: Seq<char>,
    st: VerificationStatus,
    reason: Option<String>,
    code_id: Seq<char>,
)
    ensures
        in_progress_elsewhere(with_status(vs, id, st, reason), code_id, id) == in_progress_elsewhere(
            vs,
            code_id,
            id,
        ),
{
    let n = with_status(vs, id, st, reason);
    if in_progress_elsewhere(n, code_id, id) {
        let i = choose|i: int|
            0 <= i < n.len() && (#[trigger] n[i]).status == VerificationStatus::InProgress
                && n[i].code_id@ == code_id && n[i].id@ != id;
        assert(vs[i] == n[i]);
    }
    if in_progress_elsewhere(vs, code_id, id) {
        let i = choose|i: int|
            0 <= i < vs.len() && (#[trigger] vs[i]).status == VerificationStatus::InProgress
                && vs[i].code_id@ == code_id && vs[i].id@ != id;
        assert(vs[i] == n[i]);
    }
}

proof fn lemma_claim_keeps_exclusive(vs: Seq<Verification>, v: Verification)
    requires
        exclusive(vs),
        unique_verification_ids(vs),
        job_matches(vs, v),
        !in_progress_elsewhere(vs, v.code_id@, v.id@),
    ensures
        exclusive(with_status(vs, v.id@, VerificationStatus::InProgress, None)),
{
    let n = with_status(vs, v.id@, VerificationStatus::InProgress, None);
    assert forall|i: int, j: int|
        0 <= i < n.len() && 0 <= j < n.len() && (#[trigger] n[i]).status
            == VerificationStatus::InProgress && (#[trigger] n[j]).status
            == VerificationStatus::InProgress && n[i].code_id@ == n[j].code_id@ implies i == j by {
        if vs[i].id@ != v.id@ && vs[j].id@ != v.id@ {
            assert(n[i] == vs[i] && n[j] == vs[j]);
        } else if vs[i].id@ == v.id@ && vs[j].id@ != v.id@ {
            assert(n[j] == vs[j]);
            assert(vs[i].code_id@ == v.code_id@);
            assert(n[i].code_id@ == vs[i].code_id@);
        } else if vs[j].id@ == v.id@ && vs[i].id@ != v.id@ {
            assert(n[i] == vs[i]);
            assert(vs[j].code_id@ == v.code_id@);
            assert(n[j].code_id@ == vs[j].code_id@);
        } else {
            assert(vs[i].id@ == vs[j].id@);
        }
    }
}

/// A job whose code is already verified is marked verified at its claim and
/// goes no further, so it is never built.
pub proof fn lemma_known_code_short_circuits(m: StoreView, v: Verification)
    requires
        has_code(m.codes, v.code_id@),
    ensures
        claim_outcome(m, v) == ClaimOutcome::AlreadyVerified,
        claim_status(claim_outcome(m, v)) == VerificationStatus::Verified,
{
}

/// A verified code stays stored whatever code is inserted after it, so every
/// later job for it short-circuits at its claim.
pub proof fn lemma_code_stays(cs: Seq<Code>, c: Code, id: Seq<char>)
    requires
        has_code(cs, id),
    ensures
        has_code(with_code(cs, c), id),
{
    let i = choose|i: int| 0 <= i < cs.len() && (#[trigger] cs[i]).id@ == id;
    assert(with_code(cs, c)[i] == cs[i]);
}

/// Failure reason of the on-chain stage: `present` is the probe's answer,
/// `None` when the job's network has no probe.
pub open spec fn onchain_failure_text(present: Option<bool>) -> Option<Seq<char>> {
    match present {
        None => Some(UNSUPPORTED_NETWORK@),
        Some(false) => Some(CODE_NOT_ON_CHAIN@),
        Some(true) => None,
    }
}

/// Failure reason of the on-chain stage, if the job stops there.
pub fn onchain_failure(present: Option<bool>) -> (r: Option<&'static str>)
    ensures
        r matches Some(t) ==> onchain_failure_text(present) == Some(t@),
        r is None ==> onchain_failure_text(present) is None,
{
    match present {
        None => Some(UNSUPPORTED_NETWORK),
        Some(false) => Some(CODE_NOT_ON_CHAIN),
        Some(true) => None,
    }
}

/// What the commit stage does with a build's result.
#[derive(Debug)]
pub enum BuildDecision {
    /// The job fails with this reason.
    Fail(String),
    /// The code, and the interface definition if any, are stored and the job is verified.
    Commit(Code, Option<Idl>),
}

/// The interface definition stored for IDL text `t`: keyed by its hash.
pub open spec fn idl_record_ok(d: Idl, t: String) -> bool {
    d.content == t && d.id@ == hex_lower(blake2b_256(encode_utf8(t@)))
}

/// Whether `d` is the decision owed to job `v` for build result `build`.
pub open spec fn is_build_decision(
    v: Verification,
    build: Result<BuildArtifacts, BuildError>,
    d: BuildDecision,
) -> bool {
    match build {
        Err(e) => d matches BuildDecision::Fail(t) && t@ == BUILD_FAILED_PREFIX@ + build_error_text(e),
        Ok(a) => if a.code_id@ != v.code_id@ {
            d matches BuildDecision::Fail(t) && t@ == CODE_ID_MISMATCH@
        } else {
            match d {
                BuildDecision::Fail(_) => false,
                BuildDecision::Commit(c, idl) => {
                    &&& c.id@ == v.code_id@
                    &&& c.name == a.name
                    &&& c.repo_link == v.repo_link
                    &&& match a.idl {
                        None => idl is None && c.idl_hash is None,
                        Some(t) => idl matches Some(r) && idl_record_ok(r, t) && c.idl_hash == Some(r.id),
                    }
                },
            }
        },
    }
}

/// Decides the commit stage of job `v`: a failed build or a binary with another
/// code identifier fails the job; a matching one yields the code record and,
/// when an interface definition was built, its record keyed by its hash.
pub fn decide_build(v: &Verification, build: Result<BuildArtifacts, BuildError>) -> (r: BuildDecision)
    ensures
        is_build_decision(*v, build, r),
{
    match build {
        Err(e) => {
            let msg = e.message();
            BuildDecision::Fail(join2(BUILD_FAILED_PREFIX, msg.as_str()))
        },
        Ok(a) => {
            if a.code_id != v.code_id {
                return BuildDecision::Fail(String::from_str(CODE_ID_MISMATCH));
            }
            let idl = match a.idl {
                Some(t) => {
                    let h = hash_idl(t.as_str());
                    Some(Idl { id: h, content: t })
                },
                None => None,
            };
            let idl_hash = match &idl {
                Some(d) => Some(d.id.clone()),
                None => None,
            };
            let code = Code { id: v.code_id.clone(), idl_hash, name: a.name, repo_link: v.repo_link.clone() };
            BuildDecision::Commit(code, idl)
        },
    }
}

/// Status and failure reason a commit decision leaves its job in.
pub open spec fn decision_status(d: BuildDecision) -> (VerificationStatus, Option<String>) {
    match d {
        BuildDecision::Fail(t) => (VerificationStatus::Failed, Some(t)),
        BuildDecision::Commit(_, _) => (VerificationStatus::Verified, None),
    }
}

impl Store {
    /// One poll of the scheduler while `in_progress` jobs run under the cap
    /// `max_in_progress`: nothing when the cap is reached, else the oldest
    /// pending jobs that fit under it.
    pub fn new_verifications(&self, in_progress: i64, max_in_progress: i64) -> (r: Vec<Verification>)
        requires
            store_wf(self@),
            0 <= in_progress,
        ensures
            batch_limit(in_progress as int, max_in_progress as int) is None ==> r@.len() == 0,
            batch_limit(in_progress as int, max_in_progress as int) matches Some(l) ==> r@
                == first_pending(self@.verifications, l as nat),
            in_progress <= max_in_progress ==> in_progress + r@.len() <= max_in_progress,
            forall|k: int|
                0 <= k < r@.len() ==> (#[trigger] r@[k]).status == VerificationStatus::Pending
                    && self@.verifications.contains(r@[k]),
    {
        match pending_batch_limit(in_progress, max_in_progress) {
            None => Vec::new(),
            Some(l) => {
                let limit: usize = if l as u64 <= usize::MAX as u64 {
                    l as usize
                } else {
                    usize::MAX
                };
                let r = self.list_pending(limit);
                proof {
                    lemma_pending_of_len(self@.verifications);
                    self.lemma_len_fits();
                    let vs = self@.verifications;
                    assert(first_pending(vs, limit as nat) == first_pending(vs, l as nat));
                }
                r
            },
        }
    }

    /// Claim stage of job `v`: marks it in progress, then marks it verified
    /// when its code is already stored, or sends it back to pending when
    /// another job for the same code is in progress.
    pub fn claim(&mut self, v: &Verification) -> (r: ClaimOutcome)
        requires
            store_wf(old(self)@),
        ensures
            store_wf(final(self)@),
            r == claim_outcome(old(self)@, *v),
            final(self)@.verifications == with_status(
                old(self)@.verifications,
                v.id@,
                claim_status(r),
                None,
            ),
            final(self)@.codes == old(self)@.codes,
            final(self)@.idls == old(self)@.idls,
            exclusive(old(self)@.verifications) && job_matches(old(self)@.verifications, *v)
                ==> exclusive(final(self)@.verifications),
    {
        let ghost vs0 = self@.verifications;
        self.update_status(v.id.as_str(), VerificationStatus::InProgress, None);
        let code_known = self.get_code(v.code_id.as_str()).is_some();
        proof {
            lemma_elsewhere_ignores_own(vs0, v.id@, VerificationStatus::InProgress, None, v.code_id@);
        }
        let in_flight = !code_known && self.any_in_progress_for_code(v.code_id.as_str(), v.id.as_str());
        let outcome = claim_decision(code_known, in_flight);
        if outcome != ClaimOutcome::Proceed {
            self.update_status(v.id.as_str(), outcome.status(), None);
            proof {
                lemma_with_status_twice(
                    vs0,
                    v.id@,
                    VerificationStatus::InProgress,
                    None,
                    claim_status(outcome),
                    None,
                );
                if exclusive(vs0) {
                    lemma_with_status_keeps_exclusive(vs0, v.id@, claim_status(outcome), None);
                }
            }
        } else {
            proof {
                if exclusive(vs0) && job_matches(vs0, *v) {
                    lemma_claim_keeps_exclusive(vs0, *v);
                }
            }
        }
        outcome
    }

    /// On-chain stage of job `v`: `present` is the probe's answer, `None` when
    /// the job's network has no probe. Fails the job, with its reason, unless
    /// the code is on chain; returns whether the job goes on to be built.
    pub fn record_onchain(&mut self, v: &Verification, present: Option<bool>) -> (r: bool)
        requires
            store_wf(old(self)@),
        ensures
            store_wf(final(self)@),
            r == (present == Some(true)),
            r ==> final(self)@ == old(self)@,
            !r ==> exists|t: String|
                onchain_failure_text(present) == Some(t@) && final(self)@.verifications == with_status(
                    old(self)@.verifications,
                    v.id@,
                    VerificationStatus::Failed,
                    Some(t),
                ),
            final(self)@.codes == old(self)@.codes,
            final(self)@.idls == old(self)@.idls,
            exclusive(old(self)@.verifications) ==> exclusive(final(self)@.verifications),
    {
        match onchain_failure(present) {
            Some(reason) => {
                let t = String::from_str(reason);
                let ghost gt = t;
                let ghost vs0 = self@.verifications;
                self.update_status(v.id.as_str(), VerificationStatus::Failed, Some(t));
                proof {
                    if exclusive(vs0) {
                        lemma_with_status_keeps_exclusive(vs0, v.id@, VerificationStatus::Failed, Some(gt));
                    }
                }
                false
            },
            None => true,
        }
    }

    /// Commit stage of job `v` with the result of its build: a failed build or
    /// a mismatching code identifier fails the job with its reason; a matching
    /// one stores the interface definition (if any) and the code, and marks the
    /// job verified. Returns whether the job was verified.
    pub fn commit_build(&mut self, v: &Verification, build: Result<BuildArtifacts, BuildError>) -> (r: bool)
        requires
            store_wf(old(self)@),
        ensures
            store_wf(final(self)@),
            exists|d: BuildDecision|
                {
                    &&& #[trigger] is_build_decision(*v, build, d)
                    &&& r == (d is Commit)
                    &&& final(self)@.verifications == with_status(
                        old(self)@.verifications,
                        v.id@,
                        decision_status(d).0,
                        decision_status(d).1,
                    )
                    &&& match d {
                        BuildDecision::Fail(_) => final(self)@.codes == old(self)@.codes
                            && final(self)@.idls == old(self)@.idls,
                        BuildDecision::Commit(c, idl) => final(self)@.codes == with_code(
                            old(self)@.codes,
                            c,
                        ) && final(self)@.idls == match idl {
                            Some(x) => with_idl(old(self)@.idls, x),
                            None => old(self)@.idls,
                        },
                    }
                },
            exclusive(old(self)@.verifications) ==> exclusive(final(self)@.verifications),
    {
        let ghost vs0 = self@.verifications;
        let d = decide_build(v, build);
        let ghost gd = d;
        match d {
            BuildDecision::Fail(t) => {
                let ghost gt = t;
                self.update_status(v.id.as_str(), VerificationStatus::Failed, Some(t));
                proof {
                    if exclusive(vs0) {
                        lemma_with_status_keeps_exclusive(vs0, v.id@, VerificationStatus::Failed, Some(gt));
                    }
                    assert(is_build_decision(*v, build, gd));
                }
                false
            },
            BuildDecision::Commit(c, idl) => {
                match idl {
                    Some(x) => {
                        self.insert_idl(x);
                    },
                    None => {},
                }
                self.insert_code(c);
                self.update_status(v.id.as_str(), VerificationStatus::Verified, None);
                proof {
                    if exclusive(vs0) {
                        lemma_with_status_keeps_exclusive(vs0, v.id@, VerificationStatus::Verified, None);
                    }
                    assert(is_build_decision(*v, build, gd));
                }
                true
            },
        }
    }
}

} // verus!
