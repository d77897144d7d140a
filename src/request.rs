//! The request a caller hands to the interaction tool and the popup request
//! built from it.
use vstd::prelude::*;

verus! {

/// What a caller asks the user: a message, the choices offered beside free
/// text, and whether the message is Markdown.
#[derive(Debug, Clone, PartialEq, Eq)]
pub struct ZhiRequest {
    pub message: String,
    pub predefined_options: Vec<String>,
    pub is_markdown: bool,
}

/// Who is calling, as the transport reports it.
#[derive(Debug, Clone, PartialEq, Eq)]
pub struct ClientInfo {
    pub name: String,
}

/// What the popup is asked to show.
#[derive(Debug, Clone, PartialEq, Eq)]
pub struct PopupRequest {
    pub id: String,
    pub message: String,
    /// Absent rather than empty: the popup never sees an empty list.
    pub predefined_options: Option<Vec<String>>,
    pub is_markdown: bool,
    pub client_name: Option<String>,
    /// Always absent: the workspace is not reported yet.
    pub workspace_name: Option<String>,
}

/// The options as the popup gets them: an empty list becomes absent, any
/// other list stays as it is.
pub open spec fn normalized_options(options: Vec<String>) -> Option<Vec<String>> {
    if options@.len() == 0 {
        None
    } else {
        Some(options)
    }
}

/// The caller's name, where the caller is known.
pub open spec fn client_name_of(client_info: Option<ClientInfo>) -> Option<String> {
    match client_info {
        Some(info) => Some(info.name),
        None => None,
    }
}

/// The popup request for `request` from `client_info`, under the identifier `id`.
pub open spec fn popup_request_spec(
    id: String,
    request: ZhiRequest,
    client_info: Option<ClientInfo>,
) -> PopupRequest {
    PopupRequest {
        id,
        message: request.message,
        predefined_options: normalized_options(request.predefined_options),
        is_markdown: request.is_markdown,
        client_name: client_name_of(client_info),
        workspace_name: None,
    }
}

impl PopupRequest {
    /// Builds the popup request for `request` from `client_info`, under the
    /// freshly generated identifier `id`.
    pub fn from_request(id: String, request: ZhiRequest, client_info: Option<ClientInfo>) -> (r:
        PopupRequest)
        ensures
            r == popup_request_spec(id, request, client_info),
            r.id == id,
            r.message == request.message,
            r.is_markdown == request.is_markdown,
            request.predefined_options@.len() == 0 ==> r.predefined_options is None,
            request.predefined_options@.len() > 0 ==> r.predefined_options == Some(
                request.predefined_options,
            ),
            client_info is Some ==> r.client_name == Some(client_info->Some_0.name),
            client_info is None ==> r.client_name is None,
            r.workspace_name is None,
    {
        let predefined_options = if request.predefined_options.len() == 0 {
            None
        } else {
            Some(request.predefined_options)
        };
        let client_name = match client_info {
            Some(info) => Some(info.name),
            None => None,
        };
        PopupRequest {
            id,
            message: request.message,
            predefined_options,
            is_markdown: request.is_markdown,
            client_name,
            workspace_name: None,
        }
    }
}

} // verus!
