//! The core of a push-notification delivery service: the dispatcher that
//! classifies a freshly accepted connection, the codec that seals message
//! identities into opaque tokens under rotating keys, and the notification
//! record with its storage and delivery views.

pub mod text;
pub mod util;
pub mod keyed;
pub mod error;
pub mod dispatch;
pub mod codec;
pub mod message_id;
pub mod notification;
