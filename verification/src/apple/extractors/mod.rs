//! The parts of a device's request, as the handlers take them.

mod auth;
mod logs;
mod registration;

pub use auth::{
    after_scheme, invalid_header, is_white_space, leading_white_space, lemma_ascii_header,
    lemma_scheme_can_be_parted, lowered, missing_header, names_scheme, scheme, trim_start_of,
    ApplePass, Auth, SCHEME,
};
pub use logs::Logs;
pub use registration::{DeviceRegistrationPath, DeviceRegistrationPushToken};
