//! Devices: where a change notification is delivered.

use crate::db::keyed::{lemma_take_next, lemma_take_next_all};
use crate::db::models::DbDevicePassRegistration;
use crate::db::tables::{not_of_device, of_device, other_device, other_registration, DeviceRow};
use crate::db::validity::{
    lemma_delete_device_wf, lemma_delete_registration_wf, lemma_keep_registrations_wf,
};
use crate::db::{
    device_rows, lemma_device_rows_push, lemma_registration_rows_push, registration_rows, Database,
};
use crate::time::Timestamp;
use vstd::prelude::*;

verus! {

/// A device, known by the identifier of its pass library, with the token
/// under which the push transport reaches it.
#[derive(Debug, PartialEq, Eq)]
pub struct DbDevice {
    pub device_library_id: String,
    pub push_token: String,
    pub created_at: Timestamp,
    pub last_updated_at: Timestamp,
}

impl View for DbDevice {
    type V = DeviceRow;

    open spec fn view(&self) -> DeviceRow {
        DeviceRow {
            device_library_id: self.device_library_id@,
            push_token: self.push_token@,
            created_at: self.created_at as int,
            last_updated_at: self.last_updated_at as int,
        }
    }
}

impl Clone for DbDevice {
    fn clone(&self) -> (r: Self)
        ensures
            r@ == self@,
    {
        DbDevice {
            device_library_id: self.device_library_id.clone(),
            push_token: self.push_token.clone(),
            created_at: self.created_at,
            last_updated_at: self.last_updated_at,
        }
    }
}

impl DbDevice {
    /// The number of passes that a device is registered to.
    pub fn count_of_passes(device_library_id: &str, pool: &Database) -> (n: usize)
        ensures
            n == pool@.count_of_passes(device_library_id@),
    {
        let id = device_library_id.to_owned();
        let ghost rows = registration_rows(pool.registrations@);
        let ghost p = of_device(id@);
        let mut n: usize = 0;
        let mut i: usize = 0;
        while i < pool.registrations.len()
            invariant
                i <= pool.registrations.len(),
                rows == registration_rows(pool.registrations@),
                p == of_device(id@),
                n == rows.take(i as int).filter(p).len(),
                n <= i,
            decreases pool.registrations.len() - i,
        {
            proof {
                lemma_take_next(rows, i as int);
                rows.take(i as int).lemma_filter_push(rows[i as int], p);
            }
            if pool.registrations[i].device_library_id == id {
                n += 1;
            }
            i += 1;
        }
        proof {
            assert(rows.take(rows.len() as int) =~= rows);
        }
        n
    }

    /// Removes a device and with it its registrations.
    pub fn delete(device_library_id: &str, conn: &mut Database)
        ensures
            final(conn)@ == old(conn)@.delete_device(device_library_id@),
    {
        let id = device_library_id.to_owned();
        proof {
            use_type_invariant(&*conn);
            lemma_keep_registrations_wf(conn@, not_of_device(id@));
            lemma_delete_device_wf(conn@, id@);
        }
        let ghost before = conn@;
        let ghost rows = registration_rows(conn.registrations@);
        let ghost p = not_of_device(id@);
        let mut kept: Vec<DbDevicePassRegistration> = Vec::new();
        let mut i: usize = 0;
        while i < conn.registrations.len()
            invariant
                i <= conn.registrations.len(),
                rows == registration_rows(conn.registrations@),
                p == not_of_device(id@),
                registration_rows(kept@) == rows.take(i as int).filter(p),
            decreases conn.registrations.len() - i,
        {
            proof {
                lemma_take_next(rows, i as int);
                rows.take(i as int).lemma_filter_push(rows[i as int], p);
            }
            if !(conn.registrations[i].device_library_id == id) {
                let row = conn.registrations[i].clone();
                proof {
                    lemma_registration_rows_push(kept@, row);
                }
                kept.push(row);
            }
            i += 1;
        }
        let ghost device_rows_before = device_rows(conn.devices@);
        let ghost q = other_device(id@);
        let mut devices: Vec<DbDevice> = Vec::new();
        let mut j: usize = 0;
        while j < conn.devices.len()
            invariant
                j <= conn.devices.len(),
                device_rows_before == device_rows(conn.devices@),
                q == other_device(id@),
                device_rows(devices@) == device_rows_before.take(j as int).filter(q),
            decreases conn.devices.len() - j,
        {
            proof {
                lemma_take_next(device_rows_before, j as int);
                device_rows_before.take(j as int).lemma_filter_push(device_rows_before[j as int], q);
            }
            if !(conn.devices[j].device_library_id == id) {
                let row = conn.devices[j].clone();
                proof {
                    lemma_device_rows_push(devices@, row);
                }
                devices.push(row);
            }
            j += 1;
        }
        proof {
            lemma_take_next_all(rows);
            lemma_take_next_all(device_rows_before);
        }
        conn.registrations = kept;
        conn.devices = devices;
    }

    /// Removes the registration of a device to a pass, if there is one.
    pub fn remove_pass(device_library_id: &str, pass_serial_number: &str, conn: &mut Database)
        ensures
            final(conn)@ == old(conn)@.delete_registration(
                device_library_id@,
                pass_serial_number@,
            ),
    {
        let id = device_library_id.to_owned();
        let serial = pass_serial_number.to_owned();
        proof {
            use_type_invariant(&*conn);
            lemma_delete_registration_wf(conn@, id@, serial@);
        }
        let ghost rows = registration_rows(conn.registrations@);
        let ghost p = other_registration(id@, serial@);
        let mut kept: Vec<DbDevicePassRegistration> = Vec::new();
        let mut i: usize = 0;
        while i < conn.registrations.len()
            invariant
                i <= conn.registrations.len(),
                rows == registration_rows(conn.registrations@),
                p == other_registration(id@, serial@),
                registration_rows(kept@) == rows.take(i as int).filter(p),
            decreases conn.registrations.len() - i,
        {
            proof {
                lemma_take_next(rows, i as int);
                rows.take(i as int).lemma_filter_push(rows[i as int], p);
            }
            if !(conn.registrations[i].device_library_id == id
                && conn.registrations[i].pass_serial_number == serial) {
                let row = conn.registrations[i].clone();
                proof {
                    lemma_registration_rows_push(kept@, row);
                }
                kept.push(row);
            }
            i += 1;
        }
        proof {
            lemma_take_next_all(rows);
        }
        conn.registrations = kept;
    }
}

} // verus!
