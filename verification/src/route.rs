//! Routing of decoded log records to document-store writes.

use vstd::prelude::*;

use crate::json::json_str_field;
use crate::outcome::ExecutionOutcome;
use crate::record::{decode_log, spec_decode, Action, LogError, LogRecord, LogRecordView};

verus! {

/// How a planned write is applied: append a new document unconditionally,
/// or update in place the document matching the write's `cap_id`, creating
/// one when none matches.
#[derive(Clone, Copy, Debug, PartialEq, Eq, Structural)]
pub enum WriteMode {
    Insert,
    Upsert,
}

/// One fully decided document-store write: where it goes, how it is
/// applied, and what it carries.
pub struct WriteOp {
    pub namespace: String,
    pub collection: String,
    pub mode: WriteMode,
    pub cap_id: String,
    pub params: String,
    pub created_at: i64,
}

/// The mathematical content of a `WriteOp`.
pub ghost struct WriteOpView {
    pub namespace: Seq<char>,
    pub collection: Seq<char>,
    pub mode: WriteMode,
    pub cap_id: Seq<char>,
    pub params: Seq<char>,
    pub created_at: i64,
}

impl View for WriteOp {
    type V = WriteOpView;

    open spec fn view(&self) -> WriteOpView {
        WriteOpView {
            namespace: self.namespace@,
            collection: self.collection@,
            mode: self.mode,
            cap_id: self.cap_id@,
            params: self.params@,
            created_at: self.created_at,
        }
    }
}

/// The write a decoded record asks for, on behalf of `executor` at time
/// `now`: routed to the executor's namespace and the record's `type`
/// collection, an upsert exactly when the record's action says update.
pub open spec fn spec_plan_record(executor: Seq<char>, rec: LogRecordView, now: i64) -> WriteOpView {
    WriteOpView {
        namespace: spec_namespace(executor),
        collection: rec.log_type,
        mode: if rec.action == Action::Update {
            WriteMode::Upsert
        } else {
            WriteMode::Insert
        },
        cap_id: rec.cap_id,
        params: rec.params,
        created_at: now,
    }
}

/// The write one raw log string asks for: its decoded record's write, or
/// the decoding error.
pub open spec fn spec_plan_log(executor: Seq<char>, raw: Seq<char>, now: i64) -> Result<
    WriteOpView,
    LogError,
> {
    match spec_decode(raw) {
        Ok(rec) => Ok(spec_plan_record(executor, rec, now)),
        Err(e) => Err(e),
    }
}

/// Build the write a decoded record asks for.
pub fn plan_record(executor: &str, rec: LogRecord, now: i64) -> (r: WriteOp)
    ensures
        r@ == spec_plan_record(executor@, rec@, now),
{
    let mode = match rec.action {
        Action::Update => WriteMode::Upsert,
        Action::Write => WriteMode::Insert,
    };
    WriteOp {
        namespace: namespace_for_account(executor),
        collection: rec.log_type,
        mode,
        cap_id: rec.cap_id,
        params: rec.params,
        created_at: now,
    }
}

/// Decode one raw log string and build the write it asks for.
pub fn plan_log(executor: &str, raw: &str, now: i64) -> (r: Result<WriteOp, LogError>)
    ensures
        match r {
            Ok(op) => spec_plan_log(executor@, raw@, now) == Ok::<WriteOpView, LogError>(op@),
            Err(e) => spec_plan_log(executor@, raw@, now) == Err::<WriteOpView, LogError>(e),
        },
{
    match decode_log(raw) {
        Ok(rec) => Ok(plan_record(executor, rec, now)),
        Err(e) => Err(e),
    }
}

/// A decodable log whose `action` field is anything but the string
/// `"update"` — absent, `"write"`, or any other value — is always planned
/// as an insert, never as an update.
pub proof fn lemma_non_update_action_inserts(executor: Seq<char>, raw: Seq<char>, now: i64)
    requires
        spec_decode(raw) is Ok,
        json_str_field(raw, "action"@) != Some("update"@),
    ensures
        spec_plan_log(executor, raw, now) matches Ok(op) && op.mode == WriteMode::Insert,
{
}

/// A decodable log whose `action` field is the string `"update"` is always
/// planned as an upsert keyed on its `cap_id`.
pub proof fn lemma_update_action_upserts(executor: Seq<char>, raw: Seq<char>, now: i64)
    requires
        spec_decode(raw) is Ok,
        json_str_field(raw, "action"@) == Some("update"@),
    ensures
        spec_plan_log(executor, raw, now) matches Ok(op) && op.mode == WriteMode::Upsert
            && op.cap_id == spec_decode(raw)->Ok_0.cap_id,
{
}

/// Whether `entry` is the planned outcome of `raw` on behalf of `executor`,
/// stamped with `now`.
pub open spec fn planned_at(
    executor: Seq<char>,
    raw: Seq<char>,
    entry: Result<WriteOp, LogError>,
    now: i64,
) -> bool {
    match entry {
        Ok(op) => op.created_at == now && spec_plan_log(executor, raw, now) == Ok::<
            WriteOpView,
            LogError,
        >(op@),
        Err(e) => spec_plan_log(executor, raw, now) == Err::<WriteOpView, LogError>(e),
    }
}

/// Whether `entry` is the planned outcome of `raw` on behalf of `executor`,
/// stamped with the time the write itself carries. An error entry carries
/// no time, and which error a log plans to does not depend on the time.
pub open spec fn planned(executor: Seq<char>, raw: Seq<char>, entry: Result<WriteOp, LogError>) -> bool {
    match entry {
        Ok(op) => spec_plan_log(executor, raw, op.created_at) == Ok::<WriteOpView, LogError>(op@),
        Err(e) => spec_plan_log(executor, raw, 0) == Err::<WriteOpView, LogError>(e),
    }
}

/// Plan the write for every log of one outcome, in emission order, all
/// stamped with `now`.
pub fn plan_outcome(outcome: &ExecutionOutcome, now: i64) -> (r: Vec<Result<WriteOp, LogError>>)
    ensures
        r@.len() == outcome@.logs.len(),
        forall|k: int|
            0 <= k < r@.len() ==> #[trigger] planned_at(
                outcome@.executor_id,
                outcome@.logs[k],
                r@[k],
                now,
            ),
{
    let mut r: Vec<Result<WriteOp, LogError>> = Vec::new();
    let n = outcome.logs.len();
    let mut k: usize = 0;
    while k < n
        invariant
            n == outcome.logs.len(),
            0 <= k <= n,
            r@.len() == k,
            forall|j: int|
                0 <= j < k ==> #[trigger] planned_at(
                    outcome@.executor_id,
                    outcome@.logs[j],
                    r@[j],
                    now,
                ),
        decreases n - k,
    {
        let raw = &outcome.logs[k];
        let entry = plan_log(outcome.executor_id.as_str(), raw.as_str(), now);
        r.push(entry);
        k = k + 1;
    }
    r
}

/// The document-store namespace for an executor account: the account
/// identifier with every `.` replaced by `_`.
pub open spec fn spec_namespace(account: Seq<char>) -> Seq<char> {
    account.map_values(|c: char| if c == '.' { '_' } else { c })
}

/// Derive the document-store namespace from an executor account identifier
/// by substituting `_` for every `.`.
pub fn namespace_for_account(account: &str) -> (r: String)
    ensures
        r@ == spec_namespace(account@),
{
    let n = account.unicode_len();
    let mut out = String::new();
    let mut i: usize = 0;
    while i < n
        invariant
            n == account@.len(),
            0 <= i <= n,
            out@ == spec_namespace(account@.subrange(0, i as int)),
        decreases n - i,
    {
        let c = account.get_char(i);
        if c == '.' {
            proof {
                reveal_strlit("_");
            }
            out.append("_");
        } else {
            out.append(account.substring_char(i, i + 1));
        }
        proof {
            assert(spec_namespace(account@.subrange(0, i + 1))
                =~= spec_namespace(account@.subrange(0, i as int)).push(
                    if account@[i as int] == '.' { '_' } else { account@[i as int] }
                ));
        }
        i = i + 1;
    }
    proof {
        assert(account@.subrange(0, n as int) =~= account@);
    }
    out
}

/// Namespace derivation leaves an identifier without dots unchanged.
pub proof fn lemma_namespace_no_dots_identity(account: Seq<char>)
    requires
        forall|i: int| 0 <= i < account.len() ==> account[i] != '.',
    ensures
        spec_namespace(account) == account,
{
    assert(spec_namespace(account) =~= account);
}

/// Namespace derivation is idempotent: a derived namespace contains no dots,
/// so deriving again changes nothing.
pub proof fn lemma_namespace_idempotent(account: Seq<char>)
    ensures
        spec_namespace(spec_namespace(account)) == spec_namespace(account),
{
    assert(spec_namespace(spec_namespace(account)) =~= spec_namespace(account));
}

} // verus!
