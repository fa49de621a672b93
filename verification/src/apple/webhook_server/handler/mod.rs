pub mod device_deregistration;
pub mod device_registration;
pub mod get_pass;
pub mod updatable_passes_list;

pub use device_deregistration::handle_device_deregistration;
pub use device_registration::handle_device_registration;
pub use get_pass::handle_get_pass;
pub use updatable_passes_list::{handle_list_updatable_passes, QueryParams, Res};
