//! A client for the Expo push notification service.
//!
//! The crate holds the part of the client that computes: recipient tokens and
//! messages with their wire form, the compression policy, the chunker, the
//! requests that a dispatch consists of, and the decoding of tickets and
//! receipts. Nothing here touches the network. A caller performs each
//! [`request::PushRequest`] and hands the [`request::HttpResponse`] back.
//!
//! Sending goes through [`PushNotifier::begin`] and
//! [`dispatch::Dispatch::resume`]; a single request is made with
//! [`PushNotifier::build_request`] and read with [`notifier::read_tickets`].
//! Receipts are asked for with [`PushNotifier::build_receipts_request`] and
//! read with [`notifier::read_receipts`].

pub mod chunk;
pub mod compress;
pub mod dispatch;
pub mod error;
pub mod gzip_policy;
pub mod json;
pub mod message;
pub mod notifier;
pub mod request;
pub mod response;
mod text;

pub use error::ExpoNotificationError;
pub use gzip_policy::GzipPolicy;
pub use notifier::PushNotifier;
