//! Bringing a store back from rows that were written down elsewhere.

use crate::db::keyed::{lemma_take_next, lemma_take_next_all};
use crate::db::lookup::{
    position_of_device, position_of_loyality, position_of_pass, position_of_registration,
};
use crate::db::models::{DbDevice, DbDevicePassRegistration, DbPass, DbPassTypeLoyality};
use crate::db::tables::{device_key, loyality_key, pass_key, registration_key, Tables};
use crate::db::validity::{
    lemma_insert_device_wf, lemma_insert_loyality_wf, lemma_insert_pass_wf,
    lemma_insert_registration_wf,
};
use crate::db::{device_rows, loyality_rows, pass_rows, registration_rows, Database};
use crate::error::{DatabaseError, Error};
use vstd::prelude::*;

verus! {

/// The tables that hold the given rows, in their order.
pub open spec fn tables_of(
    devices: Seq<DbDevice>,
    passes: Seq<DbPass>,
    registrations: Seq<DbDevicePassRegistration>,
    loyality: Seq<DbPassTypeLoyality>,
) -> Tables {
    Tables {
        devices: device_rows(devices),
        passes: pass_rows(passes),
        registrations: registration_rows(registrations),
        loyality: loyality_rows(loyality),
    }
}

impl Database {
    /// The store that holds the given rows, in their order. Refused where
    /// the rows are not valid tables: as a violation of uniqueness where a
    /// key occurs twice, and as a violation of a reference where a
    /// registration names a device or a pass that is not among the rows.
    pub fn restore(
        devices: &Vec<DbDevice>,
        passes: &Vec<DbPass>,
        registrations: &Vec<DbDevicePassRegistration>,
        loyality: &Vec<DbPassTypeLoyality>,
    ) -> (r: Result<Database, Error>)
        ensures
            r is Ok <==> tables_of(devices@, passes@, registrations@, loyality@).wf(),
            match r {
                Ok(db) => db@ == tables_of(devices@, passes@, registrations@, loyality@),
                Err(e) => {
                    ||| e == Error::Database(DatabaseError::UniqueViolation) && !tables_of(
                        devices@,
                        passes@,
                        registrations@,
                        loyality@,
                    ).keys_distinct()
                    ||| e == Error::Database(DatabaseError::ForeignKeyViolation) && !tables_of(
                        devices@,
                        passes@,
                        registrations@,
                        loyality@,
                    ).references_hold()
                },
            },
    {
        let ghost target = tables_of(devices@, passes@, registrations@, loyality@);
        let mut db = Database::new();
        proof {
            lemma_take_next_all(target.passes);
        }
        let mut i: usize = 0;
        while i < passes.len()
            invariant
                i <= passes.len(),
                target == tables_of(devices@, passes@, registrations@, loyality@),
                db@ == (Tables { passes: target.passes.take(i as int), ..Tables::empty() }),
            decreases passes.len() - i,
        {
            proof {
                use_type_invariant(&db);
                lemma_take_next(target.passes, i as int);
            }
            match position_of_pass(&db.passes, &passes[i].serial_number) {
                Some(j) => {
                    proof {
                        assert(db@.passes[j as int] == target.passes[j as int]);
                        assert(pass_key()(target.passes[j as int]) == pass_key()(
                            target.passes[i as int],
                        ));
                    }
                    return Err(Error::Database(DatabaseError::UniqueViolation));
                },
                None => {},
            }
            let row = passes[i].clone();
            proof {
                lemma_insert_pass_wf(db@, row@);
            }
            db.push_pass(row);
            i += 1;
        }
        proof {
            lemma_take_next_all(target.passes);
            lemma_take_next_all(target.loyality);
        }
        let mut i: usize = 0;
        while i < loyality.len()
            invariant
                i <= loyality.len(),
                target == tables_of(devices@, passes@, registrations@, loyality@),
                db@ == (Tables {
                    passes: target.passes,
                    loyality: target.loyality.take(i as int),
                    ..Tables::empty()
                }),
            decreases loyality.len() - i,
        {
            proof {
                use_type_invariant(&db);
                lemma_take_next(target.loyality, i as int);
            }
            match position_of_loyality(&db.loyality, &loyality[i].serial_number) {
                Some(j) => {
                    proof {
                        assert(db@.loyality[j as int] == target.loyality[j as int]);
                        assert(loyality_key()(target.loyality[j as int]) == loyality_key()(
                            target.loyality[i as int],
                        ));
                    }
                    return Err(Error::Database(DatabaseError::UniqueViolation));
                },
                None => {},
            }
            let row = loyality[i].clone();
            proof {
                lemma_insert_loyality_wf(db@, row@);
            }
            db.push_loyality(row);
            i += 1;
        }
        proof {
            lemma_take_next_all(target.loyality);
            lemma_take_next_all(target.devices);
        }
        let mut i: usize = 0;
        while i < devices.len()
            invariant
                i <= devices.len(),
                target == tables_of(devices@, passes@, registrations@, loyality@),
                db@ == (Tables {
                    devices: target.devices.take(i as int),
                    registrations: Seq::empty(),
                    ..target
                }),
            decreases devices.len() - i,
        {
            proof {
                use_type_invariant(&db);
                lemma_take_next(target.devices, i as int);
            }
            match position_of_device(&db.devices, &devices[i].device_library_id) {
                Some(j) => {
                    proof {
                        assert(db@.devices[j as int] == target.devices[j as int]);
                        assert(device_key()(target.devices[j as int]) == device_key()(
                            target.devices[i as int],
                        ));
                    }
                    return Err(Error::Database(DatabaseError::UniqueViolation));
                },
                None => {},
            }
            let row = devices[i].clone();
            proof {
                lemma_insert_device_wf(db@, row@);
            }
            db.push_device(row);
            i += 1;
        }
        proof {
            lemma_take_next_all(target.devices);
            lemma_take_next_all(target.registrations);
        }
        let mut i: usize = 0;
        while i < registrations.len()
            invariant
                i <= registrations.len(),
                target == tables_of(devices@, passes@, registrations@, loyality@),
                db@ == (Tables { registrations: target.registrations.take(i as int), ..target }),
            decreases registrations.len() - i,
        {
            proof {
                use_type_invariant(&db);
                lemma_take_next(target.registrations, i as int);
            }
            let ghost wanted = target.registrations[i as int];
            if position_of_device(&db.devices, &registrations[i].device_library_id).is_none()
                || position_of_pass(&db.passes, &registrations[i].pass_serial_number).is_none() {
                proof {
                    assert(!(target.has_device(wanted.device_library_id) && target.has_pass(
                        wanted.pass_serial_number,
                    )));
                }
                return Err(Error::Database(DatabaseError::ForeignKeyViolation));
            }
            match position_of_registration(
                &db.registrations,
                &registrations[i].device_library_id,
                &registrations[i].pass_serial_number,
            ) {
                Some(j) => {
                    proof {
                        assert(db@.registrations[j as int] == target.registrations[j as int]);
                        assert(registration_key()(target.registrations[j as int])
                            == registration_key()(target.registrations[i as int]));
                    }
                    return Err(Error::Database(DatabaseError::UniqueViolation));
                },
                None => {},
            }
            let row = registrations[i].clone();
            proof {
                lemma_insert_registration_wf(
                    db@,
                    wanted.device_library_id,
                    wanted.pass_serial_number,
                    wanted.created_at,
                );
            }
            db.push_registration(row);
            i += 1;
        }
        proof {
            lemma_take_next_all(target.registrations);
            use_type_invariant(&db);
        }
        Ok(db)
    }
}

} // verus!
