//! The questions and statements of the registration protocol.

use crate::db::keyed::{lemma_row_of_index, lemma_take_next, lemma_take_next_all};
use crate::db::lookup::{position_of_device, position_of_pass, position_of_registration};
use crate::db::models::{DbDevice, DbDevicePassRegistration};
use crate::db::tables::{device_key, of_pass, refresh_device, token_not_in};
use crate::db::validity::{
    lemma_insert_registration_wf, lemma_keep_registrations_wf, lemma_remove_devices_wf,
    lemma_upsert_device_wf,
};
use crate::db::{
    device_rows, lemma_device_rows_push, lemma_registration_rows_push, registration_rows, texts,
    Database,
};
use crate::error::{DatabaseError, Error};
use crate::time::Timestamp;
use vstd::prelude::*;

verus! {

/// Inserts a device, or refreshes its push token and update time, and then
/// registers it to a pass unless it is registered already: both or neither.
/// Refused where the pass is not there.
pub fn insert_device_if_not_exist(
    device_library_id: &str,
    device_push_token: &str,
    pass_serial_number: &str,
    now: Timestamp,
    pool: &mut Database,
) -> (r: Result<(), Error>)
    ensures
        match r {
            Ok(_) => old(pool)@.has_pass(pass_serial_number@) && final(pool)@ == old(
                pool,
            )@.register(device_library_id@, pass_serial_number@, device_push_token@, now as int),
            Err(e) => !old(pool)@.has_pass(pass_serial_number@) && e == Error::Database(
                DatabaseError::ForeignKeyViolation,
            ) && final(pool)@ == old(pool)@,
        },
{
    let id = device_library_id.to_owned();
    let serial = pass_serial_number.to_owned();
    let ghost before = pool@;
    proof {
        use_type_invariant(&*pool);
    }
    if position_of_pass(&pool.passes, &serial).is_none() {
        return Err(Error::Database(DatabaseError::ForeignKeyViolation));
    }
    proof {
        lemma_upsert_device_wf(before, id@, device_push_token@, now as int);
        lemma_insert_registration_wf(
            before.upsert_device(id@, device_push_token@, now as int),
            id@,
            serial@,
            now as int,
        );
    }
    match position_of_device(&pool.devices, &id) {
        Some(i) => {
            let row = DbDevice {
                device_library_id: pool.devices[i].device_library_id.clone(),
                push_token: device_push_token.to_owned(),
                created_at: pool.devices[i].created_at,
                last_updated_at: now,
            };
            proof {
                let f = refresh_device(id@, device_push_token@, now as int);
                crate::db::keyed::lemma_rewrite_one(before.devices, device_key(), f, i as int);
                assert(row@ == f(before.devices[i as int]));
            }
            pool.set_device(i, row);
        },
        None => {
            let row = DbDevice {
                device_library_id: device_library_id.to_owned(),
                push_token: device_push_token.to_owned(),
                created_at: now,
                last_updated_at: now,
            };
            pool.push_device(row);
        },
    }
    if position_of_registration(&pool.registrations, &id, &serial).is_none() {
        let row = DbDevicePassRegistration {
            device_library_id: id,
            pass_serial_number: serial,
            created_at: now,
        };
        pool.push_registration(row);
    }
    Ok(())
}

/// Whether a device is registered to a pass.
pub fn pass_registered_for_device(
    device_library_id: &str,
    pass_serial_number: &str,
    pool: &Database,
) -> (b: bool)
    ensures
        b == pool@.is_registered(device_library_id@, pass_serial_number@),
{
    let id = device_library_id.to_owned();
    let serial = pass_serial_number.to_owned();
    position_of_registration(&pool.registrations, &id, &serial).is_some()
}

/// Whether a pass with this serial number is there and `auth_token` is its
/// secret.
pub fn correct_serial_number_auth_token(serial_number: &str, auth_token: &str, pool: &Database) -> (b:
    bool)
    ensures
        b == pool@.token_matches(serial_number@, auth_token@),
{
    let serial = serial_number.to_owned();
    let token = auth_token.to_owned();
    let mut i: usize = 0;
    while i < pool.passes.len()
        invariant
            i <= pool.passes.len(),
            serial@ == serial_number@,
            token@ == auth_token@,
            forall|j: int|
                0 <= j < i ==> !((#[trigger] pool.passes[j]).serial_number@ == serial@
                    && pool.passes[j].auth_token@ == token@),
        decreases pool.passes.len() - i,
    {
        if pool.passes[i].serial_number == serial && pool.passes[i].auth_token == token {
            assert(pool@.passes[i as int] == pool.passes[i as int]@);
            assert(pool@.passes[i as int].serial_number == serial@ && pool@.passes[i as int].auth_token
                == token@);
            return true;
        }
        i += 1;
    }
    assert forall|j: int| 0 <= j < pool@.passes.len() implies !((#[trigger] pool@.passes[j]).serial_number
        == serial@ && pool@.passes[j].auth_token == token@) by {
        assert(!(pool.passes[j].serial_number@ == serial@ && pool.passes[j].auth_token@ == token@));
    }
    false
}

/// The push tokens of the devices that are registered to a pass, in the
/// order of their registrations.
pub fn push_tokens_from_serial_number(serial_number: &str, conn: &Database) -> (tokens: Vec<String>)
    ensures
        texts(tokens@) == conn@.push_tokens(serial_number@),
{
    let serial = serial_number.to_owned();
    let ghost rows = registration_rows(conn.registrations@);
    let ghost p = of_pass(serial@);
    let ghost f = conn@.token_of();
    proof {
        use_type_invariant(conn);
    }
    let mut tokens: Vec<String> = Vec::new();
    let mut i: usize = 0;
    while i < conn.registrations.len()
        invariant
            i <= conn.registrations.len(),
            conn@.wf(),
            rows == registration_rows(conn.registrations@),
            rows == conn@.registrations,
            p == of_pass(serial@),
            f == conn@.token_of(),
            texts(tokens@) == rows.take(i as int).filter(p).map_values(f),
        decreases conn.registrations.len() - i,
    {
        proof {
            lemma_take_next(rows, i as int);
            rows.take(i as int).lemma_filter_push(rows[i as int], p);
        }
        if conn.registrations[i].pass_serial_number == serial {
            assert(conn@.has_device(conn@.registrations[i as int].device_library_id));
            match position_of_device(&conn.devices, &conn.registrations[i].device_library_id) {
                Some(j) => {
                    let token = conn.devices[j].push_token.clone();
                    proof {
                        lemma_row_of_index(device_rows(conn.devices@), device_key(), j as int);
                        let kept = rows.take(i as int).filter(p);
                        assert(kept.push(rows[i as int]).map_values(f) =~= kept.map_values(f).push(
                            f(rows[i as int]),
                        ));
                        assert(texts(tokens@.push(token)) =~= texts(tokens@).push(token@));
                    }
                    tokens.push(token);
                },
                None => {
                    assert(false);
                },
            }
        }
        i += 1;
    }
    proof {
        lemma_take_next_all(rows);
    }
    tokens
}

/// Whether `token` is one of `tokens`.
pub fn is_one_of(token: &String, tokens: &Vec<String>) -> (b: bool)
    ensures
        b == texts(tokens@).contains(token@),
{
    let mut i: usize = 0;
    while i < tokens.len()
        invariant
            i <= tokens.len(),
            forall|j: int| 0 <= j < i ==> (#[trigger] tokens[j])@ != token@,
        decreases tokens.len() - i,
    {
        if tokens[i] == *token {
            assert(texts(tokens@)[i as int] == token@);
            return true;
        }
        i += 1;
    }
    assert forall|j: int| 0 <= j < texts(tokens@).len() implies #[trigger] texts(tokens@)[j]
        != token@ by {
        assert(tokens[j]@ != token@);
    }
    false
}

/// Removes every device whose push token is one of `push_tokens`, and with
/// it its registrations.
pub fn remove_devices_with_push_tokens(push_tokens: Vec<String>, conn: &mut Database)
    ensures
        final(conn)@ == old(conn)@.remove_devices_with_push_tokens(texts(push_tokens@)),
{
    let ghost before = conn@;
    let ghost gone = texts(push_tokens@);
    let ghost rows = registration_rows(conn.registrations@);
    let ghost p = before.device_token_not_in(gone);
    proof {
        use_type_invariant(&*conn);
        lemma_keep_registrations_wf(before, p);
        lemma_remove_devices_wf(before, gone);
    }
    let mut kept: Vec<DbDevicePassRegistration> = Vec::new();
    let mut i: usize = 0;
    while i < conn.registrations.len()
        invariant
            i <= conn.registrations.len(),
            conn@ == before,
            before.wf(),
            gone == texts(push_tokens@),
            rows == registration_rows(conn.registrations@),
            rows == before.registrations,
            p == before.device_token_not_in(gone),
            registration_rows(kept@) == rows.take(i as int).filter(p),
        decreases conn.registrations.len() - i,
    {
        proof {
            lemma_take_next(rows, i as int);
            rows.take(i as int).lemma_filter_push(rows[i as int], p);
            assert(before.has_device(before.registrations[i as int].device_library_id));
        }
        match position_of_device(&conn.devices, &conn.registrations[i].device_library_id) {
            Some(j) => {
                proof {
                    lemma_row_of_index(device_rows(conn.devices@), device_key(), j as int);
                }
                if !is_one_of(&conn.devices[j].push_token, &push_tokens) {
                    let row = conn.registrations[i].clone();
                    proof {
                        lemma_registration_rows_push(kept@, row);
                    }
                    kept.push(row);
                }
            },
            None => {
                assert(false);
            },
        }
        i += 1;
    }
    let ghost known = device_rows(conn.devices@);
    let ghost q = token_not_in(gone);
    let mut devices: Vec<DbDevice> = Vec::new();
    let mut j: usize = 0;
    while j < conn.devices.len()
        invariant
            j <= conn.devices.len(),
            gone == texts(push_tokens@),
            known == device_rows(conn.devices@),
            q == token_not_in(gone),
            device_rows(devices@) == known.take(j as int).filter(q),
        decreases conn.devices.len() - j,
    {
        proof {
            lemma_take_next(known, j as int);
            known.take(j as int).lemma_filter_push(known[j as int], q);
        }
        if !is_one_of(&conn.devices[j].push_token, &push_tokens) {
            let row = conn.devices[j].clone();
            proof {
                lemma_device_rows_push(devices@, row);
            }
            devices.push(row);
        }
        j += 1;
    }
    proof {
        lemma_take_next_all(rows);
        lemma_take_next_all(known);
    }
    conn.registrations = kept;
    conn.devices = devices;
}

} // verus!
