//! Registrations: which device watches which pass.

use crate::db::tables::RegistrationRow;
use crate::time::Timestamp;
use vstd::prelude::*;

verus! {

/// One device's wish to be notified of changes to one pass.
#[derive(Debug, PartialEq, Eq)]
pub struct DbDevicePassRegistration {
    pub device_library_id: String,
    pub pass_serial_number: String,
    pub created_at: Timestamp,
}

impl View for DbDevicePassRegistration {
    type V = RegistrationRow;

    open spec fn view(&self) -> RegistrationRow {
        RegistrationRow {
            device_library_id: self.device_library_id@,
            pass_serial_number: self.pass_serial_number@,
            created_at: self.created_at as int,
        }
    }
}

impl Clone for DbDevicePassRegistration {
    fn clone(&self) -> (r: Self)
        ensures
            r@ == self@,
    {
        DbDevicePassRegistration {
            device_library_id: self.device_library_id.clone(),
            pass_serial_number: self.pass_serial_number.clone(),
            created_at: self.created_at,
        }
    }
}

} // verus!
