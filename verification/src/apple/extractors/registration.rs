use vstd::prelude::*;

verus! {

/// The path of a registration request: which device, which template,
/// which pass.
#[derive(Debug, PartialEq, Eq)]
pub struct DeviceRegistrationPath {
    pub device_library_id: String,
    pub pass_type_id: String,
    pub serial_number: String,
}

/// The body of a registration request: where the device is reached.
#[derive(Debug, PartialEq, Eq)]
pub struct DeviceRegistrationPushToken {
    pub push_token: String,
}

impl DeviceRegistrationPath {
    /// The path from its three segments, in the order in which they stand
    /// in it.
    pub fn from_segments(segments: (String, String, String)) -> (path: Self)
        ensures
            path.device_library_id@ == segments.0@,
            path.pass_type_id@ == segments.1@,
            path.serial_number@ == segments.2@,
    {
        let (device_library_id, pass_type_id, serial_number) = segments;
        DeviceRegistrationPath { device_library_id, pass_type_id, serial_number }
    }
}

} // verus!
