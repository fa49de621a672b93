//! Finding the row of a key.

use crate::db::keyed::has_key;
use crate::db::models::{DbDevice, DbDevicePassRegistration, DbPass, DbPassTypeLoyality};
use crate::db::tables::{device_key, loyality_key, pass_key, registration_key};
use crate::db::{device_rows, loyality_rows, pass_rows, registration_rows};
use vstd::prelude::*;

verus! {

/// The index of the first device with the identifier `id`.
pub fn position_of_device(v: &Vec<DbDevice>, id: &String) -> (r: Option<usize>)
    ensures
        match r {
            Some(i) => i < v.len() && v[i as int].device_library_id@ == id@,
            None => !has_key(device_rows(v@), device_key(), id@),
        },
        r is Some <==> has_key(device_rows(v@), device_key(), id@),
{
    let mut i: usize = 0;
    while i < v.len()
        invariant
            i <= v.len(),
            forall|j: int| 0 <= j < i ==> (#[trigger] v[j]).device_library_id@ != id@,
        decreases v.len() - i,
    {
        if v[i].device_library_id == *id {
            assert(device_key()(device_rows(v@)[i as int]) == id@);
            return Some(i);
        }
        i += 1;
    }
    assert forall|j: int| 0 <= j < device_rows(v@).len() implies #[trigger] device_key()(
        device_rows(v@)[j],
    ) != id@ by {
        assert(v[j].device_library_id@ != id@);
    }
    None
}

/// The index of the first pass with the serial number `serial`.
pub fn position_of_pass(v: &Vec<DbPass>, serial: &String) -> (r: Option<usize>)
    ensures
        match r {
            Some(i) => i < v.len() && v[i as int].serial_number@ == serial@,
            None => !has_key(pass_rows(v@), pass_key(), serial@),
        },
        r is Some <==> has_key(pass_rows(v@), pass_key(), serial@),
{
    let mut i: usize = 0;
    while i < v.len()
        invariant
            i <= v.len(),
            forall|j: int| 0 <= j < i ==> (#[trigger] v[j]).serial_number@ != serial@,
        decreases v.len() - i,
    {
        if v[i].serial_number == *serial {
            assert(pass_key()(pass_rows(v@)[i as int]) == serial@);
            return Some(i);
        }
        i += 1;
    }
    assert forall|j: int| 0 <= j < pass_rows(v@).len() implies #[trigger] pass_key()(
        pass_rows(v@)[j],
    ) != serial@ by {
        assert(v[j].serial_number@ != serial@);
    }
    None
}

/// The index of the first loyalty card of the pass `serial`.
pub fn position_of_loyality(v: &Vec<DbPassTypeLoyality>, serial: &String) -> (r: Option<usize>)
    ensures
        match r {
            Some(i) => i < v.len() && v[i as int].serial_number@ == serial@,
            None => !has_key(loyality_rows(v@), loyality_key(), serial@),
        },
        r is Some <==> has_key(loyality_rows(v@), loyality_key(), serial@),
{
    let mut i: usize = 0;
    while i < v.len()
        invariant
            i <= v.len(),
            forall|j: int| 0 <= j < i ==> (#[trigger] v[j]).serial_number@ != serial@,
        decreases v.len() - i,
    {
        if v[i].serial_number == *serial {
            assert(loyality_key()(loyality_rows(v@)[i as int]) == serial@);
            return Some(i);
        }
        i += 1;
    }
    assert forall|j: int| 0 <= j < loyality_rows(v@).len() implies #[trigger] loyality_key()(
        loyality_rows(v@)[j],
    ) != serial@ by {
        assert(v[j].serial_number@ != serial@);
    }
    None
}

/// The index of the first registration of the device `id` to the pass
/// `serial`.
pub fn position_of_registration(
    v: &Vec<DbDevicePassRegistration>,
    id: &String,
    serial: &String,
) -> (r: Option<usize>)
    ensures
        match r {
            Some(i) => i < v.len() && v[i as int].device_library_id@ == id@
                && v[i as int].pass_serial_number@ == serial@,
            None => !has_key(registration_rows(v@), registration_key(), (id@, serial@)),
        },
        r is Some <==> has_key(registration_rows(v@), registration_key(), (id@, serial@)),
{
    let mut i: usize = 0;
    while i < v.len()
        invariant
            i <= v.len(),
            forall|j: int|
                0 <= j < i ==> !((#[trigger] v[j]).device_library_id@ == id@
                    && v[j].pass_serial_number@ == serial@),
        decreases v.len() - i,
    {
        if v[i].device_library_id == *id && v[i].pass_serial_number == *serial {
            assert(registration_key()(registration_rows(v@)[i as int]) == (id@, serial@));
            return Some(i);
        }
        i += 1;
    }
    assert forall|j: int| 0 <= j < registration_rows(v@).len() implies #[trigger] registration_key()(
        registration_rows(v@)[j],
    ) != (id@, serial@) by {
        assert(!(v[j].device_library_id@ == id@ && v[j].pass_serial_number@ == serial@));
    }
    None
}

} // verus!
