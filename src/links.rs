//! Documentation links for handler return types.

use vstd::prelude::*;
use crate::handler::DocError;
use crate::matching::{all_captures, group, group_at, regex_captures, NESTED_TYPE_PATTERN};

verus! {

/// Where the data-model documentation pages live, relative to the output.
pub const DOC_BASE: &'static str = "../com/foodmobile/server/datamodels/";

/// A plain return type with a page of its own.
pub const SIMPLE_STATUS_RESPONSE: &'static str = "SimpleStatusResponse";

/// A plain return type with a page of its own.
pub const LOGIN_RESPONSE: &'static str = "LoginResponse";

/// A generic wrapper holding one value.
pub const DATA_MODEL_RESPONSE: &'static str = "DataModelResponse";

/// A generic wrapper holding several values.
pub const MULTI_DATA_MODEL_RESPONSE: &'static str = "MultiDataModelResponse";

/// `s` begins with `p`.
pub open spec fn starts_with(s: Seq<char>, p: Seq<char>) -> bool {
    p.len() <= s.len() && s.subrange(0, p.len() as int) == p
}

/// The Markdown link to the documentation page of the type `name`.
pub open spec fn type_link(name: Seq<char>) -> Seq<char> {
    "["@ + name + "]("@ + DOC_BASE@ + name + ".html)"@
}

/// The inner type of a generic wrapper return type: group one of the first
/// nested-type match.
pub open spec fn nested_type(ret: Seq<char>) -> Result<Seq<char>, DocError> {
    match regex_captures(NESTED_TYPE_PATTERN@, ret) {
        Some(cs) => if cs.len() > 0 {
            Ok(group(cs[0], 1))
        } else {
            Err(DocError::MalformedReturnType)
        },
        None => Err(DocError::PatternRejected),
    }
}

/// Links to the wrapper `wrapper` and to the inner type of `ret`, a space apart.
pub open spec fn wrapped_link(wrapper: Seq<char>, ret: Seq<char>) -> Result<Seq<char>, DocError> {
    match nested_type(ret) {
        Ok(inner) => Ok(type_link(wrapper) + " "@ + type_link(inner)),
        Err(e) => Err(e),
    }
}

/// The documentation cross-reference of a return type; the first rule that
/// applies wins, and a type that no rule knows has no link.
pub open spec fn return_link(ret: Seq<char>) -> Result<Seq<char>, DocError> {
    if ret == SIMPLE_STATUS_RESPONSE@ || ret == LOGIN_RESPONSE@ {
        Ok(type_link(ret))
    } else if starts_with(ret, DATA_MODEL_RESPONSE@) {
        wrapped_link(DATA_MODEL_RESPONSE@, ret)
    } else if starts_with(ret, MULTI_DATA_MODEL_RESPONSE@) {
        wrapped_link(MULTI_DATA_MODEL_RESPONSE@, ret)
    } else {
        Ok(Seq::empty())
    }
}

/// Whether the two texts are equal.
fn same_text(a: &str, b: &str) -> (r: bool)
    ensures
        r == (a@ == b@),
{
    String::from_str(a) == String::from_str(b)
}

/// Whether `s` begins with `p`.
fn has_prefix(s: &str, p: &str) -> (r: bool)
    ensures
        r == starts_with(s@, p@),
{
    let n = s.unicode_len();
    let m = p.unicode_len();
    if m > n {
        return false;
    }
    same_text(s.substring_char(0, m), p)
}

/// Appends the link to the page of `name`.
fn append_link(out: &mut String, name: &str)
    ensures
        final(out)@ == old(out)@ + type_link(name@),
{
    out.append("[");
    out.append(name);
    out.append("](");
    out.append(DOC_BASE);
    out.append(name);
    out.append(".html)");
}

/// The type inside the angle brackets of a `...DataModelResponse<T>` type.
pub fn pull_nested_type(ret_type: &String) -> (r: Result<String, DocError>)
    ensures
        match nested_type(ret_type@) {
            Ok(s) => r matches Ok(t) && t@ == s,
            Err(e) => r == Err::<String, DocError>(e),
        },
{
    let caps = match all_captures(NESTED_TYPE_PATTERN, ret_type.as_str()) {
        Ok(caps) => caps,
        Err(_) => return Err(DocError::PatternRejected),
    };
    if caps.len() == 0 {
        return Err(DocError::MalformedReturnType);
    }
    assert(caps.deep_view()[0] == caps[0].deep_view());
    Ok(group_at(&caps[0], 1))
}

/// Links to `wrapper` and to the inner type of `ret_type`.
fn wrapper_links(wrapper: &str, ret_type: &String) -> (r: Result<String, DocError>)
    ensures
        match wrapped_link(wrapper@, ret_type@) {
            Ok(s) => r matches Ok(t) && t@ == s,
            Err(e) => r == Err::<String, DocError>(e),
        },
{
    let inner = match pull_nested_type(ret_type) {
        Ok(inner) => inner,
        Err(e) => return Err(e),
    };
    let mut out = String::new();
    append_link(&mut out, wrapper);
    out.append(" ");
    append_link(&mut out, inner.as_str());
    Ok(out)
}

/// The documentation link of a handler's return type.
///
/// A wrapper type without a `<...>` nested type is reported as
/// `MalformedReturnType` rather than skipped; the caller then produces no
/// document at all.
pub fn deserialize_return_type(ret_type: &String) -> (r: Result<String, DocError>)
    ensures
        match return_link(ret_type@) {
            Ok(s) => r matches Ok(t) && t@ == s,
            Err(e) => r == Err::<String, DocError>(e),
        },
{
    let ret = ret_type.as_str();
    if same_text(ret, SIMPLE_STATUS_RESPONSE) || same_text(ret, LOGIN_RESPONSE) {
        let mut out = String::new();
        append_link(&mut out, ret);
        Ok(out)
    } else if has_prefix(ret, DATA_MODEL_RESPONSE) {
        wrapper_links(DATA_MODEL_RESPONSE, ret_type)
    } else if has_prefix(ret, MULTI_DATA_MODEL_RESPONSE) {
        wrapper_links(MULTI_DATA_MODEL_RESPONSE, ret_type)
    } else {
        Ok(String::new())
    }
}

} // verus!
