//! The interaction tool: it shows the caller's question in a popup and turns
//! the user's answer into the tool's result.
use crate::error::ZhiError;
use crate::request::{ClientInfo, PopupRequest, ZhiRequest, popup_request_spec};
use vstd::prelude::*;

verus! {

/// The result once the popup has answered: its raw response goes on to the
/// parser, and a failure becomes a popup error with the same description.
pub open spec fn popup_step<R>(outcome: Result<R, String>) -> Result<R, ZhiError> {
    match outcome {
        Ok(raw) => Ok(raw),
        Err(text) => Err(ZhiError::Popup(text)),
    }
}

/// The result once the parser has answered: its content is the tool's
/// content, and its error is passed on unchanged.
pub open spec fn parse_step<C>(parsed: Result<C, rmcp::model::ErrorData>) -> Result<C, ZhiError> {
    match parsed {
        Ok(content) => Ok(content),
        Err(e) => Err(ZhiError::Parse(e)),
    }
}

/// The tool that asks the user a question through a popup.
#[derive(Clone)]
pub struct InteractionTool;

impl InteractionTool {
    /// Takes what the popup answered: the raw response to parse, or the
    /// failure, described as the popup described it.
    pub fn after_popup<R>(outcome: Result<R, String>) -> (r: Result<R, ZhiError>)
        ensures
            r == popup_step(outcome),
    {
        match outcome {
            Ok(raw) => Ok(raw),
            Err(text) => Err(ZhiError::Popup(text)),
        }
    }

    /// Takes what the parser answered: the content, or the parser's error
    /// unchanged.
    pub fn after_parse<C>(parsed: Result<C, rmcp::model::ErrorData>) -> (r: Result<C, ZhiError>)
        ensures
            r == parse_step(parsed),
    {
        match parsed {
            Ok(content) => Ok(content),
            Err(e) => Err(ZhiError::Parse(e)),
        }
    }

    /// Asks the user `request` on behalf of `client_info`. The popup request
    /// is built under `id`, shown through `create_popup`, and its raw answer
    /// is read by `parse_response`. A popup failure becomes
    /// `ZhiError::Popup` with the popup's description; a parser failure is
    /// passed on as `ZhiError::Parse`; otherwise the parsed content is
    /// returned.
    pub fn zhi<R, C, P, Q>(
        id: String,
        request: ZhiRequest,
        client_info: Option<ClientInfo>,
        create_popup: P,
        parse_response: Q,
    ) -> (r: Result<C, ZhiError>) where
        P: Fn(&PopupRequest) -> Result<R, String>,
        Q: Fn(&R) -> Result<C, rmcp::model::ErrorData>,

        requires
            forall|p: &PopupRequest| create_popup.requires((p,)),
            forall|raw: &R| parse_response.requires((raw,)),
        ensures
            exists|outcome: Result<R, String>|
                {
                    &&& #[trigger] create_popup.ensures(
                        (&popup_request_spec(id, request, client_info),),
                        outcome,
                    )
                    &&& outcome matches Err(text) ==> r == Err::<C, ZhiError>(
                        ZhiError::Popup(text),
                    )
                    &&& outcome matches Ok(raw) ==> exists|parsed: Result<C, rmcp::model::ErrorData>|
                        {
                            &&& #[trigger] parse_response.ensures((&raw,), parsed)
                            &&& r == parse_step(parsed)
                        }
                },
    {
        let popup_request = PopupRequest::from_request(id, request, client_info);
        let outcome = create_popup(&popup_request);
        match Self::after_popup(outcome) {
            Err(e) => Err(e),
            Ok(raw) => {
                let parsed = parse_response(&raw);
                Self::after_parse(parsed)
            },
        }
    }
}

} // verus!
