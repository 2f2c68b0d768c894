//! Client-side core of a mobile push-notification delivery pipeline.
//!
//! One logical push request fans out to a resource-scoped audience: the
//! audience is chunked into gateway-sized batches, each batch's JSON payload
//! is assembled and signed, and the gateway's reply to each batch decides
//! whether the remaining batches of that item are still sent.

pub mod config;
pub mod error;
pub mod http_client;
pub mod json;
pub mod push_forward;
pub mod push_notify;
pub mod pusher;
pub mod pushing_data;
pub mod user_config;
pub mod user_subscribe;

pub use config::{MobPushConfig, MobPushConfigTrait};
pub use error::MobPushError;
pub use push_forward::{PushForward, Scheme};
pub use pushing_data::PushEntity;
pub use user_config::UserPushManage;
pub use user_subscribe::{SubscribeFilter, UserMobId, UserSubscribeManage};
