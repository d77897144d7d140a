//! The two ways the interaction tool can fail.
use vstd::prelude::*;

verus! {

/// An MCP error, as rmcp builds it; carried through unchanged.
#[verifier::external_type_specification]
#[verifier::external_body]
pub struct ExErrorData(rmcp::model::ErrorData);

/// Why a call of the interaction tool failed.
#[derive(Debug, PartialEq)]
pub enum ZhiError {
    /// The popup could not be shown or answered; holds the popup's own
    /// description of what went wrong.
    Popup(String),
    /// The popup's answer could not be turned into content; holds the
    /// parser's error as it was.
    Parse(rmcp::model::ErrorData),
}

} // verus!
