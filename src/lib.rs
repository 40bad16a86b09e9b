//! Client-side protocol layer for a push-notification subscription service:
//! the catalog of subscription kinds, the authenticated request model with its
//! refresh-and-retry-once state machine, and the decoding of inbound envelopes.

pub mod catalog;
pub mod text;
pub mod http;
pub mod json;
pub mod messages;
pub mod decode;
