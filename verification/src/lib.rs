//! Engine for a webhook-delivered, signature-authenticated command protocol:
//! authenticate a request with Ed25519, decode the JSON envelope into a closed
//! set of interaction variants, dispatch by command name, and encode the
//! response envelope in the exact wire shape the caller expects.

pub mod decode;
pub mod discord;
pub mod encode;
pub mod endpoint;
pub mod hexstr;
pub mod json;
pub mod registry;
pub mod strutil;
