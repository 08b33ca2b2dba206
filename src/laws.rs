//! Properties that relate the functions of the library.

use vstd::prelude::*;
use crate::document::{blocks_text, document, handler_block};
use crate::handler::{handler_records, DocError, HandlerRecordView};
use crate::links::{nested_type, return_link, type_link, DATA_MODEL_RESPONSE, SIMPLE_STATUS_RESPONSE};
use crate::matching::{regex_captures, PARAM_PATTERN, SIGNATURE_PATTERN};
use crate::params::rendered_params;

verus! {

/// A text in which no handler signature matches yields no records and the
/// empty document.
pub proof fn lemma_no_signature_empty_document(text: Seq<char>)
    requires
        regex_captures(SIGNATURE_PATTERN@, text) == Some(Seq::<Seq<Seq<char>>>::empty()),
    ensures
        handler_records(text) == Some(Seq::<HandlerRecordView>::empty()),
        document(text) == Ok::<Seq<char>, DocError>(Seq::empty()),
{
    assert(Seq::<Seq<Seq<char>>>::empty().map_values(|c: Seq<Seq<char>>| crate::handler::record_of(c))
        =~= Seq::<HandlerRecordView>::empty());
}

/// The return type `SimpleStatusResponse` links to its own documentation page.
pub proof fn lemma_simple_status_link(ret: Seq<char>)
    requires
        ret == SIMPLE_STATUS_RESPONSE@,
    ensures
        return_link(ret) == Ok::<Seq<char>, DocError>(
            "[SimpleStatusResponse](../com/foodmobile/server/datamodels/SimpleStatusResponse.html)"@,
        ),
{
    reveal_strlit("SimpleStatusResponse");
    reveal_strlit("../com/foodmobile/server/datamodels/");
    reveal_strlit("[");
    reveal_strlit("](");
    reveal_strlit(".html)");
    reveal_strlit("[SimpleStatusResponse](../com/foodmobile/server/datamodels/SimpleStatusResponse.html)");
    assert(type_link(ret) =~= "[SimpleStatusResponse](../com/foodmobile/server/datamodels/SimpleStatusResponse.html)"@);
}

/// A `DataModelResponse<...>` return type links to exactly two pages: the
/// wrapper's and its inner type's, a space apart.
pub proof fn lemma_data_model_two_links(ret: Seq<char>)
    requires
        ret.len() >= DATA_MODEL_RESPONSE@.len(),
        ret.subrange(0, DATA_MODEL_RESPONSE@.len() as int) == DATA_MODEL_RESPONSE@,
    ensures
        match nested_type(ret) {
            Ok(inner) => return_link(ret) == Ok::<Seq<char>, DocError>(
                type_link(DATA_MODEL_RESPONSE@) + " "@ + type_link(inner),
            ),
            Err(e) => return_link(ret) == Err::<Seq<char>, DocError>(e),
        },
{
    reveal_strlit("SimpleStatusResponse");
    reveal_strlit("LoginResponse");
    reveal_strlit("DataModelResponse");
    assert(ret[0] == DATA_MODEL_RESPONSE@[0]);
}

/// A parameter list without any request-parameter annotation renders as the
/// empty block.
pub proof fn lemma_no_params_empty_block(params: Seq<char>)
    requires
        regex_captures(PARAM_PATTERN@, params) == Some(Seq::<Seq<Seq<char>>>::empty()),
    ensures
        rendered_params(params) == Ok::<Seq<char>, DocError>(Seq::empty()),
{
}

/// Rendering a list of handlers is rendering each part and concatenating the
/// results in the same order.
pub proof fn lemma_blocks_concat(a: Seq<HandlerRecordView>, b: Seq<HandlerRecordView>)
    requires
        blocks_text(a) is Ok,
        blocks_text(b) is Ok,
    ensures
        blocks_text(a + b) == Ok::<Seq<char>, DocError>(blocks_text(a)->Ok_0 + blocks_text(b)->Ok_0),
    decreases b.len(),
{
    if b.len() == 0 {
        assert(a + b =~= a);
    } else {
        assert((a + b).drop_last() =~= a + b.drop_last());
        assert((a + b).last() == b.last());
        lemma_blocks_concat(a, b.drop_last());
        assert(blocks_text(a)->Ok_0 + blocks_text(b.drop_last())->Ok_0 + handler_block(b.last())->Ok_0
            =~= blocks_text(a)->Ok_0 + (blocks_text(b.drop_last())->Ok_0 + handler_block(b.last())->Ok_0));
    }
}

/// The document of two handlers holds the first one's block, then the
/// second one's.
pub proof fn lemma_document_keeps_order(text: Seq<char>, first: HandlerRecordView, second: HandlerRecordView)
    requires
        handler_records(text) == Some(seq![first, second]),
        handler_block(first) is Ok,
        handler_block(second) is Ok,
    ensures
        document(text) == Ok::<Seq<char>, DocError>(handler_block(first)->Ok_0 + handler_block(second)->Ok_0),
{
    let hs = seq![first, second];
    assert(hs.drop_last() =~= seq![first]);
    assert(seq![first].drop_last() =~= Seq::<HandlerRecordView>::empty());
    assert(Seq::<char>::empty() + handler_block(first)->Ok_0 =~= handler_block(first)->Ok_0);
    assert(blocks_text(Seq::<HandlerRecordView>::empty()) == Ok::<Seq<char>, DocError>(Seq::empty()));
    assert(seq![first].last() == first);
    assert(blocks_text(seq![first]) == Ok::<Seq<char>, DocError>(handler_block(first)->Ok_0));
    assert(hs.last() == second);
    assert(blocks_text(hs) == Ok::<Seq<char>, DocError>(handler_block(first)->Ok_0 + handler_block(second)->Ok_0));
}

} // verus!
