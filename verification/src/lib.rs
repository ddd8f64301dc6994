//! Pub/sub, streaming server and client support for JSON-RPC, with the
//! decisions each of them makes stated and proved.

pub mod macros;
pub mod json;
pub mod pub_sub;
pub mod subscriptions;
pub mod id;
pub mod stream;
pub mod pubsub;
pub mod axum_utils;
pub mod client;
