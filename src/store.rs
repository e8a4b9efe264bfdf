//! The persistence contract of the service, kept in memory: verification
//! jobs ordered by submission time, verified codes, and interface definitions.
use crate::model::{Code, Idl, Verification, VerificationStatus};
use crate::text::same_text;
use vstd::prelude::*;

verus! {

/// What a store holds.
pub ghost struct StoreView {
    /// Verification jobs, oldest submission first.
    pub verifications: Seq<Verification>,
    /// Verified codes, in order of insertion.
    pub codes: Seq<Code>,
    /// Interface definitions, in order of insertion.
    pub idls: Seq<Idl>,
}

/// Some job has id `id`.
pub open spec fn has_verification(vs: Seq<Verification>, id: Seq<char>) -> bool {
    exists|i: int| 0 <= i < vs.len() && (#[trigger] vs[i]).id@ == id
}

/// Some code has id `id`.
pub open spec fn has_code(cs: Seq<Code>, id: Seq<char>) -> bool {
    exists|i: int| 0 <= i < cs.len() && (#[trigger] cs[i]).id@ == id
}

/// Some interface definition has id `id`.
pub open spec fn has_idl(ds: Seq<Idl>, id: Seq<char>) -> bool {
    exists|i: int| 0 <= i < ds.len() && (#[trigger] ds[i]).id@ == id
}

/// No two jobs share an id.
pub open spec fn unique_verification_ids(vs: Seq<Verification>) -> bool {
    forall|i: int, j: int|
        0 <= i < vs.len() && 0 <= j < vs.len() && (#[trigger] vs[i]).id@ == (#[trigger] vs[j]).id@
            ==> i == j
}

/// No two codes share an id.
pub open spec fn unique_code_ids(cs: Seq<Code>) -> bool {
    forall|i: int, j: int|
        0 <= i < cs.len() && 0 <= j < cs.len() && (#[trigger] cs[i]).id@ == (#[trigger] cs[j]).id@
            ==> i == j
}

/// No two interface definitions share an id.
pub open spec fn unique_idl_ids(ds: Seq<Idl>) -> bool {
    forall|i: int, j: int|
        0 <= i < ds.len() && 0 <= j < ds.len() && (#[trigger] ds[i]).id@ == (#[trigger] ds[j]).id@
            ==> i == j
}

/// Jobs are in order of submission time.
pub open spec fn sorted_by_created(vs: Seq<Verification>) -> bool {
    forall|i: int, j: int|
        0 <= i <= j < vs.len() ==> (#[trigger] vs[i]).created_at <= (#[trigger] vs[j]).created_at
}

/// At most one job per code identifier is in progress.
pub open spec fn exclusive(vs: Seq<Verification>) -> bool {
    forall|i: int, j: int|
        0 <= i < vs.len() && 0 <= j < vs.len() && (#[trigger] vs[i]).status
            == VerificationStatus::InProgress && (#[trigger] vs[j]).status
            == VerificationStatus::InProgress && vs[i].code_id@ == vs[j].code_id@ ==> i == j
}

/// The store's own invariant: unique keys, jobs in submission order.
pub open spec fn store_wf(m: StoreView) -> bool {
    &&& unique_verification_ids(m.verifications)
    &&& sorted_by_created(m.verifications)
    &&& unique_code_ids(m.codes)
    &&& unique_idl_ids(m.idls)
}

/// The jobs after the one with id `id` got status `st` and reason `reason`.
pub open spec fn with_status(
    vs: Seq<Verification>,
    id: Seq<char>,
    st: VerificationStatus,
    reason: Option<String>,
) -> Seq<Verification> {
    vs.map_values(
        |v: Verification|
            if v.id@ == id {
                Verification { status: st, failed_reason: reason, ..v }
            } else {
                v
            },
    )
}

/// The jobs after every one in progress went back to pending.
pub open spec fn reset_spec(vs: Seq<Verification>) -> Seq<Verification> {
    vs.map_values(
        |v: Verification|
            if v.status == VerificationStatus::InProgress {
                Verification { status: VerificationStatus::Pending, ..v }
            } else {
                v
            },
    )
}

/// Number of jobs in progress.
pub open spec fn count_in_progress(vs: Seq<Verification>) -> nat
    decreases vs.len(),
{
    if vs.len() == 0 {
        0
    } else {
        count_in_progress(vs.drop_last()) + if vs.last().status == VerificationStatus::InProgress {
            1nat
        } else {
            0nat
        }
    }
}

/// The pending jobs, in store order.
pub open spec fn pending_of(vs: Seq<Verification>) -> Seq<Verification>
    decreases vs.len(),
{
    if vs.len() == 0 {
        Seq::empty()
    } else if vs.last().status == VerificationStatus::Pending {
        pending_of(vs.drop_last()).push(vs.last())
    } else {
        pending_of(vs.drop_last())
    }
}

/// The first `limit` pending jobs (all of them when there are fewer).
pub open spec fn first_pending(vs: Seq<Verification>, limit: nat) -> Seq<Verification> {
    if pending_of(vs).len() <= limit {
        pending_of(vs)
    } else {
        pending_of(vs).take(limit as int)
    }
}

/// Some job other than `except` is in progress for the code `code_id`.
pub open spec fn in_progress_elsewhere(vs: Seq<Verification>, code_id: Seq<char>, except: Seq<char>) -> bool {
    exists|i: int|
        0 <= i < vs.len() && (#[trigger] vs[i]).status == VerificationStatus::InProgress
            && vs[i].code_id@ == code_id && vs[i].id@ != except
}

/// The interface definitions after inserting `d`, unless its id is taken.
pub open spec fn with_idl(ds: Seq<Idl>, d: Idl) -> Seq<Idl> {
    if has_idl(ds, d.id@) {
        ds
    } else {
        ds.push(d)
    }
}

/// The codes after inserting `c`, unless its id is taken.
pub open spec fn with_code(cs: Seq<Code>, c: Code) -> Seq<Code> {
    if has_code(cs, c.id@) {
        cs
    } else {
        cs.push(c)
    }
}

/// `v` placed at position `p` of `vs` keeps the jobs in submission order,
/// after every job submitted no later.
pub open spec fn is_insert_position(vs: Seq<Verification>, v: Verification, p: int) -> bool {
    &&& 0 <= p <= vs.len()
    &&& forall|j: int| 0 <= j < p ==> (#[trigger] vs[j]).created_at <= v.created_at
    &&& forall|j: int| p <= j < vs.len() ==> (#[trigger] vs[j]).created_at > v.created_at
}

/// Jobs, verified codes and interface definitions.
pub struct Store {
    verifications: Vec<Verification>,
    codes: Vec<Code>,
    idls: Vec<Idl>,
}

impl View for Store {
    type V = StoreView;

    closed spec fn view(&self) -> StoreView {
        StoreView { verifications: self.verifications@, codes: self.codes@, idls: self.idls@ }
    }
}

proof fn lemma_pending_prefix(vs: Seq<Verification>, i: int)
    requires
        0 <= i <= vs.len(),
    ensures
        pending_of(vs.take(i)).len() <= pending_of(vs).len(),
        pending_of(vs).take(pending_of(vs.take(i)).len() as int) == pending_of(vs.take(i)),
    decreases vs.len(),
{
    if i == vs.len() {
        assert(vs.take(i) =~= vs);
        assert(pending_of(vs).take(pending_of(vs).len() as int) =~= pending_of(vs));
    } else {
        let d = vs.drop_last();
        assert(vs.take(i) =~= d.take(i));
        lemma_pending_prefix(d, i);
        let k = pending_of(d.take(i)).len() as int;
        if vs.last().status == VerificationStatus::Pending {
            assert(pending_of(vs) == pending_of(d).push(vs.last()));
            assert(pending_of(vs).take(k) =~= pending_of(d).take(k));
        } else {
            assert(pending_of(vs) == pending_of(d));
        }
    }
}

/// There are no more pending jobs than jobs.
pub proof fn lemma_pending_of_len(vs: Seq<Verification>)
    ensures
        pending_of(vs).len() <= vs.len(),
    decreases vs.len(),
{
    if vs.len() > 0 {
        lemma_pending_of_len(vs.drop_last());
    }
}

/// Every pending job listed is pending and stands in the store.
pub proof fn lemma_pending_of_members(vs: Seq<Verification>)
    ensures
        forall|k: int|
            0 <= k < pending_of(vs).len() ==> (#[trigger] pending_of(vs)[k]).status
                == VerificationStatus::Pending && vs.contains(pending_of(vs)[k]),
    decreases vs.len(),
{
    if vs.len() > 0 {
        let d = vs.drop_last();
        lemma_pending_of_members(d);
        assert forall|k: int| 0 <= k < pending_of(vs).len() implies (#[trigger] pending_of(
            vs,
        )[k]).status == VerificationStatus::Pending && vs.contains(pending_of(vs)[k]) by {
            if k < pending_of(d).len() {
                assert(pending_of(vs)[k] == pending_of(d)[k]);
                let j = choose|j: int| 0 <= j < d.len() && d[j] == pending_of(d)[k];
                assert(vs[j] == d[j]);
            } else {
                assert(pending_of(vs)[k] == vs.last());
                assert(vs[vs.len() - 1] == vs.last());
            }
        }
    }
}

/// The pending jobs of a store in submission order are in submission order.
pub proof fn lemma_pending_of_sorted(vs: Seq<Verification>)
    requires
        sorted_by_created(vs),
    ensures
        sorted_by_created(pending_of(vs)),
    decreases vs.len(),
{
    if vs.len() > 0 {
        let d = vs.drop_last();
        assert(sorted_by_created(d));
        lemma_pending_of_sorted(d);
        lemma_pending_of_members(d);
        if vs.last().status == VerificationStatus::Pending {
            let p = pending_of(vs);
            assert forall|i: int, j: int| 0 <= i <= j < p.len() implies (#[trigger] p[i]).created_at
                <= (#[trigger] p[j]).created_at by {
                if j == p.len() - 1 && i < j {
                    assert(d.contains(pending_of(d)[i]));
                    let m = choose|m: int| 0 <= m < d.len() && d[m] == pending_of(d)[i];
                    assert(vs[m] == d[m]);
                    assert(vs[vs.len() - 1] == vs.last());
                }
            }
        }
    }
}

/// Giving a job any status but in-progress keeps at most one job in progress per code.
pub proof fn lemma_with_status_keeps_exclusive(
    vs: Seq<Verification>,
    id: Seq<char>,
    st: VerificationStatus,
    reason: Option<String>,
)
    requires
        exclusive(vs),
        st != VerificationStatus::InProgress,
    ensures
        exclusive(with_status(vs, id, st, reason)),
{
    let n = with_status(vs, id, st, reason);
    assert forall|i: int, j: int|
        0 <= i < n.len() && 0 <= j < n.len() && (#[trigger] n[i]).status
            == VerificationStatus::InProgress && (#[trigger] n[j]).status
            == VerificationStatus::InProgress && n[i].code_id@ == n[j].code_id@ implies i == j by {
        assert(n[i] == vs[i] && n[j] == vs[j]);
    }
}

/// Inserting an interface definition a second time changes nothing.
pub proof fn lemma_idl_insert_idempotent(ds: Seq<Idl>, d: Idl)
    ensures
        with_idl(with_idl(ds, d), d) == with_idl(ds, d),
{
    if !has_idl(ds, d.id@) {
        let e = ds.push(d);
        assert(e[ds.len() as int].id@ == d.id@);
        assert(has_idl(e, d.id@));
    }
}

impl Store {
    /// A store holds no more jobs than a `usize` counts.
    pub proof fn lemma_len_fits(&self)
        ensures
            self@.verifications.len() <= usize::MAX,
    {
        assert(self.verifications.len() == self.verifications@.len());
    }

    /// An empty store.
    pub fn new() -> (r: Store)
        ensures
            r@.verifications.len() == 0,
            r@.codes.len() == 0,
            r@.idls.len() == 0,
            store_wf(r@),
    {
        Store { verifications: Vec::new(), codes: Vec::new(), idls: Vec::new() }
    }

    fn verification_index(&self, id: &str) -> (r: Option<usize>)
        ensures
            r matches Some(i) ==> i < self@.verifications.len() && self@.verifications[i as int].id@
                == id@,
            r is None ==> !has_verification(self@.verifications, id@),
    {
        let mut i: usize = 0;
        while i < self.verifications.len()
            invariant
                i <= self.verifications@.len(),
                forall|k: int| 0 <= k < i ==> (#[trigger] self.verifications@[k]).id@ != id@,
            decreases self.verifications@.len() - i,
        {
            if same_text(self.verifications[i].id.as_str(), id) {
                return Some(i);
            }
            i = i + 1;
        }
        None
    }

    /// Writes a new job, keeping jobs in submission order. `false`, and nothing
    /// written, when a job with the same id is stored.
    pub fn insert_verification(&mut self, v: Verification) -> (r: bool)
        requires
            store_wf(old(self)@),
        ensures
            store_wf(final(self)@),
            r == !has_verification(old(self)@.verifications, v.id@),
            r ==> exists|p: int|
                is_insert_position(old(self)@.verifications, v, p) && final(self)@.verifications
                    == old(self)@.verifications.insert(p, v),
            !r ==> final(self)@.verifications == old(self)@.verifications,
            final(self)@.codes == old(self)@.codes,
            final(self)@.idls == old(self)@.idls,
            exclusive(old(self)@.verifications) && v.status != VerificationStatus::InProgress
                ==> exclusive(final(self)@.verifications),
    {
        if self.verification_index(v.id.as_str()).is_some() {
            return false;
        }
        let ghost old_vs = self.verifications@;
        let mut p: usize = 0;
        while p < self.verifications.len() && self.verifications[p].created_at <= v.created_at
            invariant
                p <= self.verifications@.len(),
                self.verifications@ == old_vs,
                forall|j: int| 0 <= j < p ==> (#[trigger] old_vs[j]).created_at <= v.created_at,
            decreases self.verifications@.len() - p,
        {
            p = p + 1;
        }
        assert(forall|j: int| p <= j < old_vs.len() ==> (#[trigger] old_vs[j]).created_at > v.created_at)
            by {
            assert forall|j: int| p <= j < old_vs.len() implies (#[trigger] old_vs[j]).created_at
                > v.created_at by {
                assert(old_vs[p as int].created_at <= old_vs[j].created_at);
            }
        }
        let ghost nv = v;
        self.verifications.insert(p, v);
        proof {
            let n = self.verifications@;
            assert(n == old_vs.insert(p as int, nv));
            assert forall|i: int, j: int|
                0 <= i < n.len() && 0 <= j < n.len() && (#[trigger] n[i]).id@ == (#[trigger] n[j]).id@
                    implies i == j by {
                if i != p && j != p {
                    let oi = if i < p { i } else { i - 1 };
                    let oj = if j < p { j } else { j - 1 };
                    assert(n[i] == old_vs[oi] && n[j] == old_vs[oj]);
                } else if i == p && j != p {
                    let oj = if j < p { j } else { j - 1 };
                    assert(n[j] == old_vs[oj]);
                } else if j == p && i != p {
                    let oi = if i < p { i } else { i - 1 };
                    assert(n[i] == old_vs[oi]);
                }
            }
            assert forall|i: int, j: int| 0 <= i <= j < n.len() implies (#[trigger] n[i]).created_at
                <= (#[trigger] n[j]).created_at by {
                let oi = if i < p { i } else { i - 1 };
                let oj = if j < p { j } else { j - 1 };
                if i != p && j != p {
                    assert(n[i] == old_vs[oi] && n[j] == old_vs[oj]);
                } else if i == p && j != p {
                    assert(n[j] == old_vs[oj]);
                } else if j == p && i != p {
                    assert(n[i] == old_vs[oi]);
                }
            }
            if exclusive(old_vs) && nv.status != VerificationStatus::InProgress {
                assert forall|i: int, j: int|
                    0 <= i < n.len() && 0 <= j < n.len() && (#[trigger] n[i]).status
                        == VerificationStatus::InProgress && (#[trigger] n[j]).status
                        == VerificationStatus::InProgress && n[i].code_id@ == n[j].code_id@
                        implies i == j by {
                    let oi = if i < p { i } else { i - 1 };
                    let oj = if j < p { j } else { j - 1 };
                    assert(n[i] == old_vs[oi] && n[j] == old_vs[oj]);
                }
            }
            assert(is_insert_position(old_vs, nv, p as int));
        }
        true
    }

    /// The job with id `id`.
    pub fn get_verification(&self, id: &str) -> (r: Option<Verification>)
        ensures
            r is Some <==> has_verification(self@.verifications, id@),
            r matches Some(v) ==> v.id@ == id@ && self@.verifications.contains(v),
    {
        match self.verification_index(id) {
            Some(i) => Some(self.verifications[i].duplicate()),
            None => None,
        }
    }

    /// Sets the status and failure reason of the job with id `id`. `false`,
    /// and nothing changed, when there is no such job.
    pub fn update_status(&mut self, id: &str, status: VerificationStatus, reason: Option<String>) -> (r: bool)
        requires
            store_wf(old(self)@),
        ensures
            store_wf(final(self)@),
            r == has_verification(old(self)@.verifications, id@),
            final(self)@.verifications == with_status(old(self)@.verifications, id@, status, reason),
            final(self)@.codes == old(self)@.codes,
            final(self)@.idls == old(self)@.idls,
            exclusive(old(self)@.verifications) && status != VerificationStatus::InProgress
                ==> exclusive(final(self)@.verifications),
    {
        let ghost old_vs = self.verifications@;
        proof {
            if exclusive(old_vs) && status != VerificationStatus::InProgress {
                lemma_with_status_keeps_exclusive(old_vs, id@, status, reason);
            }
        }
        match self.verification_index(id) {
            Some(i) => {
                let mut row = self.verifications[i].duplicate();
                row.status = status;
                row.failed_reason = reason;
                self.verifications.set(i, row);
                proof {
                    let n = self.verifications@;
                    assert(n =~= with_status(old_vs, id@, status, reason)) by {
                        assert forall|k: int| 0 <= k < n.len() implies n[k] == with_status(
                            old_vs,
                            id@,
                            status,
                            reason,
                        )[k] by {
                            if k != i {
                                assert(old_vs[k].id@ != id@);
                            }
                        }
                    }
                    assert forall|a: int, b: int|
                        0 <= a < n.len() && 0 <= b < n.len() && (#[trigger] n[a]).id@
                            == (#[trigger] n[b]).id@ implies a == b by {
                        assert(n[a].id@ == old_vs[a].id@ && n[b].id@ == old_vs[b].id@);
                    }
                    assert forall|a: int, b: int| 0 <= a <= b < n.len() implies (
                    #[trigger] n[a]).created_at <= (#[trigger] n[b]).created_at by {
                        assert(n[a].created_at == old_vs[a].created_at);
                        assert(n[b].created_at == old_vs[b].created_at);
                    }
                }
                true
            },
            None => {
                assert(self.verifications@ =~= with_status(old_vs, id@, status, reason));
                false
            },
        }
    }

    /// Sends every job in progress back to pending, as at startup after a
    /// crash; returns how many were reset.
    pub fn reset_in_progress(&mut self) -> (r: usize)
        requires
            store_wf(old(self)@),
        ensures
            store_wf(final(self)@),
            final(self)@.verifications == reset_spec(old(self)@.verifications),
            r == count_in_progress(old(self)@.verifications),
            forall|i: int|
                0 <= i < final(self)@.verifications.len() ==> (#[trigger] final(self)@.verifications[i]).status
                    != VerificationStatus::InProgress,
            exclusive(final(self)@.verifications),
            final(self)@.codes == old(self)@.codes,
            final(self)@.idls == old(self)@.idls,
    {
        let ghost old_vs = self.verifications@;
        let ghost old_m = self@;
        let mut count: usize = 0;
        let mut i: usize = 0;
        while i < self.verifications.len()
            invariant
                i <= self.verifications@.len(),
                self.verifications@.len() == old_vs.len(),
                self.codes@ == old_m.codes,
                self.idls@ == old_m.idls,
                count == count_in_progress(old_vs.take(i as int)),
                count <= i,
                forall|k: int| 0 <= k < i ==> #[trigger] self.verifications@[k] == reset_spec(old_vs)[k],
                forall|k: int| i <= k < old_vs.len() ==> #[trigger] self.verifications@[k] == old_vs[k],
            decreases self.verifications@.len() - i,
        {
            assert(old_vs.take(i + 1).drop_last() =~= old_vs.take(i as int));
            if self.verifications[i].status == VerificationStatus::InProgress {
                let mut row = self.verifications[i].duplicate();
                row.status = VerificationStatus::Pending;
                self.verifications.set(i, row);
                count = count + 1;
            }
            i = i + 1;
        }
        proof {
            let n = self.verifications@;
            assert(n =~= reset_spec(old_vs));
            assert(old_vs.take(old_vs.len() as int) =~= old_vs);
            assert forall|a: int, b: int|
                0 <= a < n.len() && 0 <= b < n.len() && (#[trigger] n[a]).id@ == (#[trigger] n[b]).id@
                    implies a == b by {
                assert(n[a].id@ == old_vs[a].id@ && n[b].id@ == old_vs[b].id@);
            }
            assert forall|a: int, b: int| 0 <= a <= b < n.len() implies (#[trigger] n[a]).created_at
                <= (#[trigger] n[b]).created_at by {
                assert(n[a].created_at == old_vs[a].created_at);
                assert(n[b].created_at == old_vs[b].created_at);
            }
        }
        count
    }

    /// Whether a job other than `except_id` is in progress for `code_id`.
    pub fn any_in_progress_for_code(&self, code_id: &str, except_id: &str) -> (r: bool)
        ensures
            r == in_progress_elsewhere(self@.verifications, code_id@, except_id@),
    {
        let mut i: usize = 0;
        while i < self.verifications.len()
            invariant
                i <= self.verifications@.len(),
                forall|k: int|
                    0 <= k < i ==> !((#[trigger] self.verifications@[k]).status
                        == VerificationStatus::InProgress && self.verifications@[k].code_id@
                        == code_id@ && self.verifications@[k].id@ != except_id@),
            decreases self.verifications@.len() - i,
        {
            let v = &self.verifications[i];
            if v.status == VerificationStatus::InProgress && same_text(v.code_id.as_str(), code_id)
                && !same_text(v.id.as_str(), except_id) {
                return true;
            }
            i = i + 1;
        }
        false
    }

    /// The first `limit` pending jobs, oldest submission first.
    pub fn list_pending(&self, limit: usize) -> (r: Vec<Verification>)
        requires
            store_wf(self@),
        ensures
            r@ == first_pending(self@.verifications, limit as nat),
            r@.len() <= limit,
            sorted_by_created(r@),
            forall|k: int|
                0 <= k < r@.len() ==> (#[trigger] r@[k]).status == VerificationStatus::Pending
                    && self@.verifications.contains(r@[k]),
    {
        let ghost vs = self.verifications@;
        let mut out: Vec<Verification> = Vec::new();
        let mut i: usize = 0;
        while i < self.verifications.len() && out.len() < limit
            invariant
                vs == self.verifications@,
                i <= vs.len(),
                out@.len() <= limit,
                out@ == pending_of(vs.take(i as int)),
            decreases vs.len() - i,
        {
            assert(vs.take(i + 1).drop_last() =~= vs.take(i as int));
            if self.verifications[i].status == VerificationStatus::Pending {
                out.push(self.verifications[i].duplicate());
            }
            i = i + 1;
        }
        proof {
            lemma_pending_prefix(vs, i as int);
            if i == vs.len() {
                assert(vs.take(i as int) =~= vs);
            }
            lemma_pending_of_members(vs);
            lemma_pending_of_sorted(vs);
            let f = first_pending(vs, limit as nat);
            assert(out@ =~= f);
            assert forall|k: int| 0 <= k < out@.len() implies (#[trigger] out@[k]).status
                == VerificationStatus::Pending && vs.contains(out@[k]) by {
                assert(out@[k] == pending_of(vs)[k]);
            }
            assert forall|a: int, b: int| 0 <= a <= b < out@.len() implies (
            #[trigger] out@[a]).created_at <= (#[trigger] out@[b]).created_at by {
                assert(out@[a] == pending_of(vs)[a] && out@[b] == pending_of(vs)[b]);
            }
        }
        out
    }

    /// Writes a verified code. `false`, and nothing written, when a code with
    /// the same id is stored.
    pub fn insert_code(&mut self, code: Code) -> (r: bool)
        requires
            store_wf(old(self)@),
        ensures
            store_wf(final(self)@),
            r == !has_code(old(self)@.codes, code.id@),
            final(self)@.codes == with_code(old(self)@.codes, code),
            final(self)@.verifications == old(self)@.verifications,
            final(self)@.idls == old(self)@.idls,
    {
        if self.code_index(code.id.as_str()).is_some() {
            return false;
        }
        let ghost old_cs = self.codes@;
        self.codes.push(code);
        proof {
            let n = self.codes@;
            assert forall|a: int, b: int|
                0 <= a < n.len() && 0 <= b < n.len() && (#[trigger] n[a]).id@ == (#[trigger] n[b]).id@
                    implies a == b by {
                if a < old_cs.len() && b < old_cs.len() {
                    assert(n[a] == old_cs[a] && n[b] == old_cs[b]);
                } else if a < old_cs.len() {
                    assert(n[a] == old_cs[a]);
                } else if b < old_cs.len() {
                    assert(n[b] == old_cs[b]);
                }
            }
        }
        true
    }

    fn code_index(&self, id: &str) -> (r: Option<usize>)
        ensures
            r matches Some(i) ==> i < self@.codes.len() && self@.codes[i as int].id@ == id@,
            r is None ==> !has_code(self@.codes, id@),
    {
        let mut i: usize = 0;
        while i < self.codes.len()
            invariant
                i <= self.codes@.len(),
                forall|k: int| 0 <= k < i ==> (#[trigger] self.codes@[k]).id@ != id@,
            decreases self.codes@.len() - i,
        {
            if same_text(self.codes[i].id.as_str(), id) {
                return Some(i);
            }
            i = i + 1;
        }
        None
    }

    /// The verified code with id `id`.
    pub fn get_code(&self, id: &str) -> (r: Option<Code>)
        ensures
            r is Some <==> has_code(self@.codes, id@),
            r matches Some(c) ==> c.id@ == id@ && self@.codes.contains(c),
    {
        match self.code_index(id) {
            Some(i) => Some(self.codes[i].duplicate()),
            None => None,
        }
    }

    /// For each of `ids`, in order, the verified code with that id.
    pub fn get_codes(&self, ids: &Vec<String>) -> (r: Vec<Option<Code>>)
        ensures
            r@.len() == ids@.len(),
            forall|k: int|
                0 <= k < r@.len() ==> ((#[trigger] r@[k]) is Some <==> has_code(self@.codes, ids@[k]@)),
            forall|k: int|
                0 <= k < r@.len() ==> ((#[trigger] r@[k]) matches Some(c) ==> c.id@ == ids@[k]@
                    && self@.codes.contains(c)),
    {
        let mut out: Vec<Option<Code>> = Vec::new();
        let mut i: usize = 0;
        while i < ids.len()
            invariant
                i <= ids@.len(),
                out@.len() == i,
                forall|k: int|
                    0 <= k < i ==> ((#[trigger] out@[k]) is Some <==> has_code(self@.codes, ids@[k]@)),
                forall|k: int|
                    0 <= k < i ==> ((#[trigger] out@[k]) matches Some(c) ==> c.id@ == ids@[k]@
                        && self@.codes.contains(c)),
            decreases ids@.len() - i,
        {
            out.push(self.get_code(ids[i].as_str()));
            i = i + 1;
        }
        out
    }

    fn idl_index(&self, id: &str) -> (r: Option<usize>)
        ensures
            r matches Some(i) ==> i < self@.idls.len() && self@.idls[i as int].id@ == id@,
            r is None ==> !has_idl(self@.idls, id@),
    {
        let mut i: usize = 0;
        while i < self.idls.len()
            invariant
                i <= self.idls@.len(),
                forall|k: int| 0 <= k < i ==> (#[trigger] self.idls@[k]).id@ != id@,
            decreases self.idls@.len() - i,
        {
            if same_text(self.idls[i].id.as_str(), id) {
                return Some(i);
            }
            i = i + 1;
        }
        None
    }

    /// Writes an interface definition, unless one with the same id is stored;
    /// returns whether it was written.
    pub fn insert_idl(&mut self, idl: Idl) -> (r: bool)
        requires
            store_wf(old(self)@),
        ensures
            store_wf(final(self)@),
            r == !has_idl(old(self)@.idls, idl.id@),
            final(self)@.idls == with_idl(old(self)@.idls, idl),
            final(self)@.verifications == old(self)@.verifications,
            final(self)@.codes == old(self)@.codes,
    {
        if self.idl_index(idl.id.as_str()).is_some() {
            return false;
        }
        let ghost old_ds = self.idls@;
        self.idls.push(idl);
        proof {
            let n = self.idls@;
            assert forall|a: int, b: int|
                0 <= a < n.len() && 0 <= b < n.len() && (#[trigger] n[a]).id@ == (#[trigger] n[b]).id@
                    implies a == b by {
                if a < old_ds.len() && b < old_ds.len() {
                    assert(n[a] == old_ds[a] && n[b] == old_ds[b]);
                } else if a < old_ds.len() {
                    assert(n[a] == old_ds[a]);
                } else if b < old_ds.len() {
                    assert(n[b] == old_ds[b]);
                }
            }
        }
        true
    }

    /// The interface definition with id `id`.
    pub fn get_idl(&self, id: &str) -> (r: Option<Idl>)
        ensures
            r is Some <==> has_idl(self@.idls, id@),
            r matches Some(d) ==> d.id@ == id@ && self@.idls.contains(d),
    {
        match self.idl_index(id) {
            Some(i) => Some(self.idls[i].duplicate()),
            None => None,
        }
    }
}

} // verus!
