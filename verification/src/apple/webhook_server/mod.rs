//! The web service that devices call: to be registered to a pass and
//! deregistered from it, to ask which passes changed, and to fetch a pass.

pub mod handler;
pub mod middleware;
