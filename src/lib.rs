//! A small Gemini server library: response construction, request framing and
//! decoding, client identities, and the per-connection protocol driver.

pub mod text;
pub mod response;
pub mod duration;
pub mod codec;
pub mod identity;
pub mod request;
pub mod connection;
pub mod storage;
pub mod application;
