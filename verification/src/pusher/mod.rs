//! The delivery pipeline: batching, signing and request assembly, and the
//! interpretation of the gateway's replies.

pub mod create_push;
pub mod push_model;

pub use create_push::{parse_respond, push_url, render_payload, resolve_outcome, sign, to_hex, PushSession, SignedRequest};
pub use push_model::{CreatePush, Forward, PushNotify, PushTarget, Respond, MAX_BATCH_SIZE};
