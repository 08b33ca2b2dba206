//! Assembly of the Markdown document, one block per handler.

use vstd::prelude::*;
use crate::handler::{extract_function_groups, handler_records, records_view, DocError, HandlerRecord, HandlerRecordView};
use crate::links::{deserialize_return_type, return_link};
use crate::params::{generate_doc_param, rendered_params};

verus! {

/// The block of one handler once its parameters and link are rendered.
pub open spec fn block_text(h: HandlerRecordView, params: Seq<char>, link: Seq<char>) -> Seq<char> {
    "#### "@ + h.method + " "@ + h.path + "\n---\n"@ + params + "\n---\n"@ + link + "\n"@
}

/// The Markdown block of one handler.
pub open spec fn handler_block(h: HandlerRecordView) -> Result<Seq<char>, DocError> {
    match rendered_params(h.params_str) {
        Err(e) => Err(e),
        Ok(p) => match return_link(h.result_type) {
            Err(e) => Err(e),
            Ok(l) => Ok(block_text(h, p, l)),
        },
    }
}

/// The blocks of the given handlers concatenated in order; the first handler
/// that cannot be rendered decides the error.
pub open spec fn blocks_text(hs: Seq<HandlerRecordView>) -> Result<Seq<char>, DocError>
    decreases hs.len(),
{
    if hs.len() == 0 {
        Ok(Seq::empty())
    } else {
        match blocks_text(hs.drop_last()) {
            Err(e) => Err(e),
            Ok(d) => match handler_block(hs.last()) {
                Err(e) => Err(e),
                Ok(b) => Ok(d + b),
            },
        }
    }
}

/// The documentation page of a whole source text.
pub open spec fn document(text: Seq<char>) -> Result<Seq<char>, DocError> {
    match handler_records(text) {
        Some(hs) => blocks_text(hs),
        None => Err(DocError::PatternRejected),
    }
}

/// The Markdown block of one handler: heading, parameters, return-type link.
pub fn generate_doc_str(func_match: &HandlerRecord) -> (r: Result<String, DocError>)
    ensures
        match handler_block(func_match@) {
            Ok(s) => r matches Ok(t) && t@ == s,
            Err(e) => r == Err::<String, DocError>(e),
        },
{
    let param_text = match generate_doc_param(&func_match.params_str) {
        Ok(p) => p,
        Err(e) => return Err(e),
    };
    let link = match deserialize_return_type(&func_match.result_type) {
        Ok(l) => l,
        Err(e) => return Err(e),
    };
    let mut out = String::new();
    out.append("#### ");
    out.append(func_match.method.as_str());
    out.append(" ");
    out.append(func_match.path.as_str());
    out.append("\n---\n");
    out.append(param_text.as_str());
    out.append("\n---\n");
    out.append(link.as_str());
    out.append("\n");
    Ok(out)
}

/// The blocks of `records`, concatenated in their order.
pub fn generate_blocks(records: &Vec<HandlerRecord>) -> (r: Result<String, DocError>)
    ensures
        match blocks_text(records_view(records@)) {
            Ok(s) => r matches Ok(t) && t@ == s,
            Err(e) => r == Err::<String, DocError>(e),
        },
{
    let ghost hs = records_view(records@);
    let mut out = String::new();
    let mut i: usize = 0;
    while i < records.len()
        invariant
            i <= records.len(),
            hs == records_view(records@),
            blocks_text(hs.take(i as int)) == Ok::<Seq<char>, DocError>(out@),
        decreases records.len() - i,
    {
        assert(hs.take(i + 1).drop_last() =~= hs.take(i as int));
        assert(hs.take(i + 1).last() == records@[i as int]@);
        let block = match generate_doc_str(&records[i]) {
            Ok(b) => b,
            Err(e) => {
                proof {
                    lemma_error_stays(hs, i as int + 1);
                    assert(hs.take(hs.len() as int) =~= hs);
                }
                return Err(e);
            },
        };
        out.append(block.as_str());
        i = i + 1;
    }
    assert(hs.take(i as int) =~= hs);
    Ok(out)
}

/// Once a prefix of the handlers fails, every longer prefix fails alike.
proof fn lemma_error_stays(hs: Seq<HandlerRecordView>, k: int)
    requires
        0 <= k <= hs.len(),
        blocks_text(hs.take(k)) is Err,
    ensures
        blocks_text(hs.take(hs.len() as int)) == blocks_text(hs.take(k)),
    decreases hs.len() - k,
{
    if k < hs.len() {
        assert(hs.take(k + 1).drop_last() =~= hs.take(k));
        lemma_error_stays(hs, k + 1);
    }
}

/// The documentation page of the handlers found in `text`.
pub fn generate_document(text: &str) -> (r: Result<String, DocError>)
    ensures
        match document(text@) {
            Ok(s) => r matches Ok(t) && t@ == s,
            Err(e) => r == Err::<String, DocError>(e),
        },
{
    let records = match extract_function_groups(text) {
        Ok(records) => records,
        Err(e) => return Err(e),
    };
    generate_blocks(&records)
}

} // verus!
