//! The device-facing side: push notifications and the web service that
//! devices call.

pub mod apn;
pub mod extractors;
pub mod webhook_server;
