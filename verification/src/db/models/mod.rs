//! The rows of the registration store as the program holds them.

mod device_pass_registrations;
mod devices;
mod passes;

pub use device_pass_registrations::DbDevicePassRegistration;
pub use devices::DbDevice;
pub use passes::{moment, DbPass, DbPassType, DbPassTypeHelper, DbPassTypeLoyality};
