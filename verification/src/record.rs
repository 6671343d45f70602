//! Decoding of raw log strings into structured log records.
//!
//! A raw log string is expected to be a JSON object with a required string
//! `type` field, a required `params` field of any shape, and optional string
//! `action` and `cap_id` fields. `action` defaults to a plain write and
//! `cap_id` defaults to the literal `"None"`; a non-string value in either
//! optional field counts as absent.

use vstd::prelude::*;

use crate::json::{extract_field_text, extract_str_field, json_field_text, json_str_field};

verus! {

/// The write mode a log record asks for: append a new document, or update
/// the document matching its `cap_id`.
#[derive(Clone, Copy, Debug, PartialEq, Eq, Structural)]
pub enum Action {
    Write,
    Update,
}

/// Why a raw log string was rejected.
#[derive(Clone, Copy, Debug, PartialEq, Eq, Structural)]
pub enum LogError {
    /// The text does not parse as a JSON object with a string `type` field.
    MissingType,
    /// The text parses and carries a `type`, but has no `params` field.
    MissingParams,
}

/// A decoded log record. `params` holds the record's body re-encoded as
/// canonical JSON text, passed through unread to the persistence layer.
pub struct LogRecord {
    pub log_type: String,
    pub action: Action,
    pub cap_id: String,
    pub params: String,
}

/// The mathematical content of a `LogRecord`.
pub ghost struct LogRecordView {
    pub log_type: Seq<char>,
    pub action: Action,
    pub cap_id: Seq<char>,
    pub params: Seq<char>,
}

impl View for LogRecord {
    type V = LogRecordView;

    open spec fn view(&self) -> LogRecordView {
        LogRecordView {
            log_type: self.log_type@,
            action: self.action,
            cap_id: self.cap_id@,
            params: self.params@,
        }
    }
}

/// The action a raw log string asks for: `Update` exactly when its `action`
/// field is the string `"update"`, a plain write otherwise.
pub open spec fn spec_action(doc: Seq<char>) -> Action {
    match json_str_field(doc, "action"@) {
        Some(a) => if a == "update"@ {
            Action::Update
        } else {
            Action::Write
        },
        None => Action::Write,
    }
}

/// The upsert key a raw log string carries: its `cap_id` field, or the
/// literal `"None"` when that field is absent or not a string.
pub open spec fn spec_cap_id(doc: Seq<char>) -> Seq<char> {
    match json_str_field(doc, "cap_id"@) {
        Some(c) => c,
        None => "None"@,
    }
}

/// What decoding a raw log string yields: a record exactly when the text
/// carries a string `type` field and a `params` field, and otherwise the
/// error naming the first requirement that fails.
pub open spec fn spec_decode(doc: Seq<char>) -> Result<LogRecordView, LogError> {
    match json_str_field(doc, "type"@) {
        None => Err(LogError::MissingType),
        Some(t) => match json_field_text(doc, "params"@) {
            None => Err(LogError::MissingParams),
            Some(p) => Ok(
                LogRecordView {
                    log_type: t,
                    action: spec_action(doc),
                    cap_id: spec_cap_id(doc),
                    params: p,
                },
            ),
        },
    }
}

/// Decode one raw log string into a `LogRecord`, applying the defaults for
/// the optional `action` and `cap_id` fields.
pub fn decode_log(raw: &str) -> (r: Result<LogRecord, LogError>)
    ensures
        match r {
            Ok(rec) => spec_decode(raw@) == Ok::<LogRecordView, LogError>(rec@),
            Err(e) => spec_decode(raw@) == Err::<LogRecordView, LogError>(e),
        },
{
    let log_type = match extract_str_field(raw, "type") {
        Some(t) => t,
        None => {
            return Err(LogError::MissingType);
        },
    };
    let params = match extract_field_text(raw, "params") {
        Some(p) => p,
        None => {
            return Err(LogError::MissingParams);
        },
    };
    let action = match extract_str_field(raw, "action") {
        Some(a) => {
            let update_word: String = "update".to_owned();
            if a == update_word {
                Action::Update
            } else {
                Action::Write
            }
        },
        None => Action::Write,
    };
    let cap_id = match extract_str_field(raw, "cap_id") {
        Some(c) => c,
        None => "None".to_owned(),
    };
    Ok(LogRecord { log_type, action, cap_id, params })
}

} // verus!
