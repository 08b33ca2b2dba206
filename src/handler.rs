//! Handler records and their discovery in a source text.

use vstd::prelude::*;
use crate::matching::{all_captures, group, group_at, regex_captures, SIGNATURE_PATTERN};

verus! {

/// Why a document could not be produced.
#[derive(Debug, Clone, Copy, PartialEq, Eq, Structural)]
pub enum DocError {
    /// One of the recognition patterns was refused by the regex engine.
    PatternRejected,
    /// A return type names a generic wrapper but holds no `<...>` type.
    MalformedReturnType,
}

/// One recognized handler, its fields verbatim from the source text.
pub struct HandlerRecord {
    pub method: String,
    pub path: String,
    pub access: String,
    pub result_type: String,
    pub func_name: String,
    pub params_str: String,
}

/// The mathematical value of a [`HandlerRecord`].
pub struct HandlerRecordView {
    pub method: Seq<char>,
    pub path: Seq<char>,
    pub access: Seq<char>,
    pub result_type: Seq<char>,
    pub func_name: Seq<char>,
    pub params_str: Seq<char>,
}

impl View for HandlerRecord {
    type V = HandlerRecordView;

    open spec fn view(&self) -> HandlerRecordView {
        HandlerRecordView {
            method: self.method@,
            path: self.path@,
            access: self.access@,
            result_type: self.result_type@,
            func_name: self.func_name@,
            params_str: self.params_str@,
        }
    }
}

/// The record that one signature match describes: groups one to six.
pub open spec fn record_of(c: Seq<Seq<char>>) -> HandlerRecordView {
    HandlerRecordView {
        method: group(c, 1),
        path: group(c, 2),
        access: group(c, 3),
        result_type: group(c, 4),
        func_name: group(c, 5),
        params_str: group(c, 6),
    }
}

/// The records of all signature matches in `text`, in order of appearance.
pub open spec fn handler_records(text: Seq<char>) -> Option<Seq<HandlerRecordView>> {
    match regex_captures(SIGNATURE_PATTERN@, text) {
        Some(cs) => Some(cs.map_values(|c: Seq<Seq<char>>| record_of(c))),
        None => None,
    }
}

/// The values of a list of records.
pub open spec fn records_view(v: Seq<HandlerRecord>) -> Seq<HandlerRecordView> {
    v.map_values(|h: HandlerRecord| h@)
}

/// Every handler signature in `text`, one record per match, in the order in
/// which the signatures appear.
pub fn extract_function_groups(text: &str) -> (r: Result<Vec<HandlerRecord>, DocError>)
    ensures
        match handler_records(text@) {
            Some(rs) => r matches Ok(v) && records_view(v@) == rs,
            None => r == Err::<Vec<HandlerRecord>, DocError>(DocError::PatternRejected),
        },
{
    let caps = match all_captures(SIGNATURE_PATTERN, text) {
        Ok(caps) => caps,
        Err(_) => return Err(DocError::PatternRejected),
    };
    let ghost cs = caps.deep_view();
    let mut result: Vec<HandlerRecord> = Vec::new();
    let mut i: usize = 0;
    while i < caps.len()
        invariant
            i <= caps.len(),
            cs == caps.deep_view(),
            result.len() == i,
            forall|j: int| 0 <= j < i ==> #[trigger] result@[j]@ == record_of(cs[j]),
        decreases caps.len() - i,
    {
        let c = &caps[i];
        assert(cs[i as int] == c.deep_view());
        let rec = HandlerRecord {
            method: group_at(c, 1),
            path: group_at(c, 2),
            access: group_at(c, 3),
            result_type: group_at(c, 4),
            func_name: group_at(c, 5),
            params_str: group_at(c, 6),
        };
        result.push(rec);
        i = i + 1;
    }
    assert(records_view(result@) =~= cs.map_values(|c: Seq<Seq<char>>| record_of(c)));
    Ok(result)
}

} // verus!
