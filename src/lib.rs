//! An interaction tool that asks the user through a popup and turns the
//! answer into a tool-call result.
pub mod error;
pub mod interaction;
pub mod request;

pub use error::ZhiError;
pub use interaction::InteractionTool;
pub use request::{ClientInfo, PopupRequest, ZhiRequest};
