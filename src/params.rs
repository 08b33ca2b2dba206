//! Rendering of a handler's request parameters as Markdown bullet lines.

use vstd::prelude::*;
use crate::handler::DocError;
use crate::matching::{all_captures, group, group_at, regex_captures, PARAM_PATTERN};

verus! {

/// The bullet line of one parameter match: `- <name> : <type>` and a newline.
pub open spec fn param_line(c: Seq<Seq<char>>) -> Seq<char> {
    "- "@ + group(c, 2) + " : "@ + group(c, 1) + "\n"@
}

/// The bullet lines of the given parameter matches, in match order.
pub open spec fn param_lines(cs: Seq<Seq<Seq<char>>>) -> Seq<char>
    decreases cs.len(),
{
    if cs.len() == 0 {
        Seq::empty()
    } else {
        param_lines(cs.drop_last()) + param_line(cs.last())
    }
}

/// The rendered parameter block of a raw parameter list.
pub open spec fn rendered_params(params: Seq<char>) -> Result<Seq<char>, DocError> {
    match regex_captures(PARAM_PATTERN@, params) {
        Some(cs) => Ok(param_lines(cs)),
        None => Err(DocError::PatternRejected),
    }
}

/// One line per request parameter of `param_str`, in order of appearance;
/// parameters of any other form are skipped.
pub fn generate_doc_param(param_str: &String) -> (r: Result<String, DocError>)
    ensures
        match rendered_params(param_str@) {
            Ok(s) => r matches Ok(t) && t@ == s,
            Err(e) => r == Err::<String, DocError>(e),
        },
{
    let caps = match all_captures(PARAM_PATTERN, param_str.as_str()) {
        Ok(caps) => caps,
        Err(_) => return Err(DocError::PatternRejected),
    };
    let ghost cs = caps.deep_view();
    let mut response = String::new();
    let mut i: usize = 0;
    while i < caps.len()
        invariant
            i <= caps.len(),
            cs == caps.deep_view(),
            response@ == param_lines(cs.take(i as int)),
        decreases caps.len() - i,
    {
        let c = &caps[i];
        assert(cs[i as int] == c.deep_view());
        let param_type = group_at(c, 1);
        let param_name = group_at(c, 2);
        response.append("- ");
        response.append(param_name.as_str());
        response.append(" : ");
        response.append(param_type.as_str());
        response.append("\n");
        assert(cs.take(i + 1).drop_last() =~= cs.take(i as int));
        i = i + 1;
    }
    assert(cs.take(i as int) =~= cs);
    Ok(response)
}

} // verus!
