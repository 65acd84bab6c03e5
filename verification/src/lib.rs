//! Client-side logic of the StewardX command line: the lifecycle of the service
//! process, the requests sent to a running service, and the rendering of its replies.

pub mod api;
pub mod json;
pub mod output;
pub mod stewardx;
pub mod text;
pub mod utils;
