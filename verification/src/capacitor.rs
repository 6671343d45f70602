//! The engine: allowlist cache, outcome filter, and log processing.
//!
//! A `Capacitor` owns the in-memory allowlist cache and a ghost model of
//! the durable allowlist store. The surrounding process performs the store
//! reads and writes and reports their results; the engine decides, and its
//! contracts tie every decision to the allowlist model. The cache is only
//! extended after the durable write has succeeded, so the durable store
//! always stays a subset of the cache.

use vstd::prelude::*;

use crate::clock::current_timestamp_millis;
use crate::outcome::{ExecutionOutcome, ExecutionOutcomeView, ExecutionStatus};
use crate::record::LogError;
use crate::route::{plan_log, planned, WriteOp};

verus! {

broadcast use vstd::seq_lib::lemma_seq_contains_after_push;

/// The set of identifiers a sequence of identifiers holds.
pub open spec fn id_set(ids: Seq<Seq<char>>) -> Set<Seq<char>> {
    Set::new(|x: Seq<char>| ids.contains(x))
}

/// The allowlist as the engine models it: the in-memory cache and the
/// contents of the durable store.
#[verifier::ext_equal]
pub ghost struct AllowlistModel {
    pub cache: Set<Seq<char>>,
    pub store: Set<Seq<char>>,
}

impl AllowlistModel {
    /// The allowlist invariant: every durably stored identifier is
    /// mirrored in the cache.
    pub open spec fn inv(self) -> bool {
        self.store.subset_of(self.cache)
    }
}

/// The transition one account addition makes on the allowlist: a no-op
/// when the identifier is already durably stored, otherwise a durable
/// insert mirrored into the cache.
pub open spec fn spec_add_account(m: AllowlistModel, id: Seq<char>) -> AllowlistModel {
    if m.store.contains(id) {
        m
    } else {
        AllowlistModel { cache: m.cache.insert(id), store: m.store.insert(id) }
    }
}

/// Whether an outcome is eligible for processing: its status is a success
/// variant and its executor is allowlisted.
pub open spec fn spec_eligible(allow: Set<Seq<char>>, o: ExecutionOutcomeView) -> bool {
    o.status.is_success() && allow.contains(o.executor_id)
}

/// A non-success outcome is never eligible, whatever its executor and
/// whatever the allowlist.
pub proof fn lemma_failed_status_ineligible(allow: Set<Seq<char>>, o: ExecutionOutcomeView)
    requires
        !o.status.is_success(),
    ensures
        !spec_eligible(allow, o),
{
}

/// A success outcome is eligible exactly when its executor is in the
/// allowlist at the time of the check.
pub proof fn lemma_success_eligibility(allow: Set<Seq<char>>, o: ExecutionOutcomeView)
    requires
        o.status.is_success(),
    ensures
        spec_eligible(allow, o) <==> allow.contains(o.executor_id),
{
}

/// After an account addition commits, the allowlist invariant still holds,
/// the cache contains the account, and a second addition of the same
/// account changes nothing.
pub proof fn lemma_add_account_idempotent(m: AllowlistModel, id: Seq<char>)
    requires
        m.inv(),
    ensures
        spec_add_account(m, id).inv(),
        spec_add_account(m, id).cache.contains(id),
        spec_add_account(spec_add_account(m, id), id) == spec_add_account(m, id),
{
}

/// Membership of an identifier in a vector of identifiers.
fn vec_contains_id(ids: &Vec<String>, id: &String) -> (r: bool)
    ensures
        r == ids.deep_view().contains(id@),
{
    let n = ids.len();
    let mut i: usize = 0;
    while i < n
        invariant
            n == ids.len(),
            0 <= i <= n,
            forall|j: int| 0 <= j < i ==> ids.deep_view()[j] != id@,
        decreases n - i,
    {
        if ids[i].eq(id) {
            proof {
                assert(ids.deep_view()[i as int] == id@);
            }
            return true;
        }
        i = i + 1;
    }
    false
}

/// The engine. It owns the allowlist cache; the durable store and the
/// document store stay outside, and their results are handed in.
pub struct Capacitor {
    allowed_ids: Vec<String>,
    store_ids: Ghost<Set<Seq<char>>>,
}

impl Capacitor {
    /// The cached allowlist, as a set of identifiers.
    pub closed spec fn allowed(&self) -> Set<Seq<char>> {
        id_set(self.allowed_ids.deep_view())
    }

    /// The modelled contents of the durable allowlist store.
    pub closed spec fn store(&self) -> Set<Seq<char>> {
        self.store_ids@
    }

    /// The engine's allowlist model.
    pub open spec fn model(&self) -> AllowlistModel {
        AllowlistModel { cache: self.allowed(), store: self.store() }
    }

    /// Well-formedness: the cache holds no duplicates and mirrors
    /// everything durably stored.
    pub closed spec fn wf(&self) -> bool {
        self.allowed_ids.deep_view().no_duplicates() && self.store().subset_of(self.allowed())
    }

    /// A well-formed engine satisfies the allowlist invariant.
    pub proof fn lemma_wf_inv(&self)
        requires
            self.wf(),
        ensures
            self.model().inv(),
    {
    }

    /// A new engine, seeded with identifiers to monitor from the start.
    /// Nothing is known yet of the durable store.
    pub fn new(temp_allowed_ids: Vec<String>) -> (r: Capacitor)
        ensures
            r.wf(),
            r.allowed() == id_set(temp_allowed_ids.deep_view()),
            r.store() == Set::<Seq<char>>::empty(),
    {
        let ghost seed = temp_allowed_ids.deep_view();
        let mut ids: Vec<String> = Vec::new();
        let n = temp_allowed_ids.len();
        let mut i: usize = 0;
        while i < n
            invariant
                n == temp_allowed_ids.len(),
                seed == temp_allowed_ids.deep_view(),
                0 <= i <= n,
                ids.deep_view().no_duplicates(),
                forall|x: Seq<char>| ids.deep_view().contains(x) ==> seed.contains(x),
                forall|j: int| 0 <= j < i ==> ids.deep_view().contains(seed[j]),
            decreases n - i,
        {
            let id = temp_allowed_ids[i].clone();
            if !vec_contains_id(&ids, &id) {
                let ghost pre = ids.deep_view();
                ids.push(id);
                proof {
                    assert(ids.deep_view() =~= pre.push(seed[i as int]));
                }
            }
            i = i + 1;
        }
        let r = Capacitor { allowed_ids: ids, store_ids: Ghost(Set::empty()) };
        proof {
            assert forall|x: Seq<char>| id_set(seed).contains(x) implies r.allowed().contains(
                x,
            ) by {
                let j = choose|j: int| 0 <= j < seed.len() && seed[j] == x;
                assert(r.allowed_ids.deep_view().contains(seed[j]));
            }
            assert(r.allowed() =~= id_set(seed));
        }
        r
    }

    /// Merge the identifiers read from the durable store into the cache,
    /// deduplicating, and adopt them as the modelled store contents. To be
    /// called once, before processing begins.
    pub fn load(&mut self, stored_ids: Vec<String>)
        requires
            old(self).wf(),
        ensures
            final(self).wf(),
            final(self).allowed() == old(self).allowed().union(id_set(stored_ids.deep_view())),
            final(self).store() == id_set(stored_ids.deep_view()),
    {
        let ghost stored = stored_ids.deep_view();
        let n = stored_ids.len();
        let mut i: usize = 0;
        while i < n
            invariant
                n == stored_ids.len(),
                stored == stored_ids.deep_view(),
                0 <= i <= n,
                self.allowed_ids.deep_view().no_duplicates(),
                self.store_ids == old(self).store_ids,
                forall|x: Seq<char>|
                    old(self).allowed().contains(x) ==> self.allowed().contains(x),
                forall|x: Seq<char>|
                    self.allowed().contains(x) ==> old(self).allowed().contains(x)
                        || stored.contains(x),
                forall|j: int| 0 <= j < i ==> self.allowed_ids.deep_view().contains(stored[j]),
            decreases n - i,
        {
            let id = stored_ids[i].clone();
            if !vec_contains_id(&self.allowed_ids, &id) {
                let ghost pre = self.allowed_ids.deep_view();
                self.allowed_ids.push(id);
                proof {
                    assert(self.allowed_ids.deep_view() =~= pre.push(stored[i as int]));
                }
            }
            i = i + 1;
        }
        self.store_ids = Ghost(id_set(stored));
        proof {
            assert forall|x: Seq<char>|
                old(self).allowed().union(id_set(stored)).contains(x) implies self.allowed()
                .contains(x) by {
                if !old(self).allowed().contains(x) {
                    let j = choose|j: int| 0 <= j < stored.len() && stored[j] == x;
                    assert(self.allowed_ids.deep_view().contains(stored[j]));
                }
            }
            assert(self.allowed() =~= old(self).allowed().union(id_set(stored)));
        }
    }

    /// Cache-only membership test for the hot path.
    pub fn contains(&self, account_id: &String) -> (r: bool)
        ensures
            r == self.allowed().contains(account_id@),
    {
        vec_contains_id(&self.allowed_ids, account_id)
    }

    /// Commit one account addition. The caller has checked the durable
    /// store for the identifier and reports the result as
    /// `present_in_store`; when it was absent, the caller has already
    /// inserted it durably, and the engine mirrors it into the cache. When
    /// the report is truthful, the whole step is `spec_add_account` on the
    /// allowlist model.
    pub fn add_account_id(&mut self, account_id: String, present_in_store: bool)
        requires
            old(self).wf(),
        ensures
            final(self).wf(),
            present_in_store ==> *final(self) == *old(self),
            !present_in_store ==> final(self).model() == (AllowlistModel {
                cache: old(self).allowed().insert(account_id@),
                store: old(self).store().insert(account_id@),
            }),
            present_in_store == old(self).store().contains(account_id@) ==> final(self).model()
                == spec_add_account(old(self).model(), account_id@),
    {
        let ghost idv = account_id@;
        if !present_in_store {
            if !vec_contains_id(&self.allowed_ids, &account_id) {
                let ghost pre = self.allowed_ids.deep_view();
                self.allowed_ids.push(account_id);
                proof {
                    assert(self.allowed_ids.deep_view() =~= pre.push(idv));
                }
            }
            self.store_ids = Ghost(self.store_ids@.insert(idv));
            proof {
                assert(self.allowed() =~= old(self).allowed().insert(idv));
            }
        }
    }

    /// Pure filter for the hot path: is this outcome eligible for
    /// processing under the current allowlist?
    pub fn is_valid_receipt(&self, execution_outcome: &ExecutionOutcome) -> (r: bool)
        ensures
            r == spec_eligible(self.allowed(), execution_outcome@),
    {
        match execution_outcome.status {
            ExecutionStatus::SuccessValue => self.contains(&execution_outcome.executor_id),
            ExecutionStatus::SuccessReceiptId => self.contains(&execution_outcome.executor_id),
            ExecutionStatus::Other => false,
        }
    }

    /// Plan the write for every log of one outcome, in emission order,
    /// each stamped with the wall-clock time of its own processing. Bad
    /// logs yield their error, in place, and processing continues.
    pub fn process_outcome(&self, outcome: &ExecutionOutcome) -> (r: Vec<
        Result<WriteOp, LogError>,
    >)
        ensures
            r@.len() == outcome@.logs.len(),
            forall|k: int|
                0 <= k < r@.len() ==> #[trigger] planned(
                    outcome@.executor_id,
                    outcome@.logs[k],
                    r@[k],
                ),
    {
        let mut r: Vec<Result<WriteOp, LogError>> = Vec::new();
        let n = outcome.logs.len();
        let mut k: usize = 0;
        while k < n
            invariant
                n == outcome.logs.len(),
                0 <= k <= n,
                r@.len() == k,
                forall|j: int|
                    0 <= j < k ==> #[trigger] planned(
                        outcome@.executor_id,
                        outcome@.logs[j],
                        r@[j],
                    ),
            decreases n - k,
        {
            let raw = &outcome.logs[k];
            let now = current_timestamp_millis();
            let entry = plan_log(outcome.executor_id.as_str(), raw.as_str(), now);
            r.push(entry);
            k = k + 1;
        }
        r
    }

    /// Filter one outcome and, when it is eligible, plan its writes:
    /// the whole per-outcome step of the stream consumer. An ineligible
    /// outcome yields nothing at all.
    pub fn handle_outcome(&self, outcome: &ExecutionOutcome) -> (r: Option<
        Vec<Result<WriteOp, LogError>>,
    >)
        ensures
            r is Some <==> spec_eligible(self.allowed(), outcome@),
            match r {
                Some(plan) => plan@.len() == outcome@.logs.len() && forall|k: int|
                    0 <= k < plan@.len() ==> #[trigger] planned(
                        outcome@.executor_id,
                        outcome@.logs[k],
                        plan@[k],
                    ),
                None => true,
            },
    {
        if self.is_valid_receipt(outcome) {
            Some(self.process_outcome(outcome))
        } else {
            None
        }
    }
}

} // verus!
