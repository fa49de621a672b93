//! Server-side bookkeeping for a push-driven pass update service: which
//! devices watch which passes, who may act on a pass, which devices to notify
//! when a pass changes, and which passes a device still has to fetch.

pub mod app;
pub mod apple;
pub mod db;
pub mod error;
pub mod http;
pub mod image;
pub mod laws;
pub mod time;
pub mod utils;
pub mod wallet;
