//! Passes and the loyalty card that a pass carries.

use crate::db::keyed::{
    lemma_rewrite_none, lemma_rewrite_one, lemma_row_of_index, lemma_take_next,
    lemma_take_next_all,
};
use crate::db::lookup::{position_of_loyality, position_of_pass, position_of_registration};
use crate::db::models::DbDevicePassRegistration;
use crate::db::tables::{
    credit_points, loyality_key, not_of_pass, of_pass, other_loyality, other_pass, pass_key,
    redeem_card, touch_pass, LoyalityRow, PassRow, Tables,
};
use crate::db::validity::{
    lemma_add_points_wf, lemma_delete_pass_wf, lemma_insert_loyality_wf, lemma_insert_pass_wf,
    lemma_keep_loyality_wf, lemma_keep_registrations_wf, lemma_redeem_bonus_wf,
    lemma_rewrite_loyality_wf,
};
use crate::db::{
    lemma_loyality_rows_push, lemma_pass_rows_push, lemma_registration_rows_push, loyality_rows,
    pass_rows, registration_rows, Database,
};
use crate::error::{DatabaseError, Error};
use crate::time::{later, Timestamp};
use vstd::prelude::*;

verus! {

/// The loyalty card of one pass: how many points it holds, how many it
/// takes to fill it, and how often it was redeemed.
#[derive(Debug, PartialEq, Eq)]
pub struct DbPassTypeLoyality {
    pub serial_number: String,
    pub already_redeemed: i32,
    pub total_points: i32,
    pub current_points: i32,
    pub pass_holder_name: String,
    pub last_used_at: Option<Timestamp>,
}

impl View for DbPassTypeLoyality {
    type V = LoyalityRow;

    open spec fn view(&self) -> LoyalityRow {
        LoyalityRow {
            serial_number: self.serial_number@,
            already_redeemed: self.already_redeemed as int,
            total_points: self.total_points as int,
            current_points: self.current_points as int,
            pass_holder_name: self.pass_holder_name@,
            last_used_at: match self.last_used_at {
                Some(t) => Some(t as int),
                None => None,
            },
        }
    }
}

impl Clone for DbPassTypeLoyality {
    fn clone(&self) -> (r: Self)
        ensures
            r@ == self@,
    {
        DbPassTypeLoyality {
            serial_number: self.serial_number.clone(),
            already_redeemed: self.already_redeemed,
            total_points: self.total_points,
            current_points: self.current_points,
            pass_holder_name: self.pass_holder_name.clone(),
            last_used_at: self.last_used_at,
        }
    }
}

/// A point in time as the model has it.
pub open spec fn moment(t: Option<Timestamp>) -> Option<int> {
    match t {
        Some(t) => Some(t as int),
        None => None,
    }
}

impl DbPassTypeLoyality {
    /// Adds this loyalty card, unless its pass has one already.
    pub fn insert(&self, conn: &mut Database) -> (r: Result<(), Error>)
        ensures
            match r {
                Ok(_) => !old(conn)@.has_loyality(self.serial_number@) && final(conn)@ == old(
                    conn,
                )@.insert_loyality(self@),
                Err(e) => old(conn)@.has_loyality(self.serial_number@) && e == Error::Database(
                    DatabaseError::UniqueViolation,
                ) && final(conn)@ == old(conn)@,
            },
    {
        proof {
            use_type_invariant(&*conn);
        }
        match position_of_loyality(&conn.loyality, &self.serial_number) {
            Some(_) => Err(Error::Database(DatabaseError::UniqueViolation)),
            None => {
                let row = self.clone();
                proof {
                    lemma_insert_loyality_wf(conn@, row@);
                }
                conn.push_loyality(row);
                Ok(())
            },
        }
    }

    /// The loyalty card of a pass, which has to be there.
    pub fn from_serial_number(serial_number: &str, conn: &Database) -> (r: Result<Self, Error>)
        ensures
            match r {
                Ok(l) => conn@.has_loyality(serial_number@) && l@ == conn@.loyality_of(
                    serial_number@,
                ),
                Err(e) => !conn@.has_loyality(serial_number@) && e == Error::Database(
                    DatabaseError::RowNotFound,
                ),
            },
    {
        match Self::from_serial_number_optional(serial_number, conn) {
            Some(l) => Ok(l),
            None => Err(Error::Database(DatabaseError::RowNotFound)),
        }
    }

    /// The loyalty card of a pass, if there is one.
    pub fn from_serial_number_optional(serial_number: &str, conn: &Database) -> (r: Option<Self>)
        ensures
            match r {
                Some(l) => conn@.has_loyality(serial_number@) && l@ == conn@.loyality_of(
                    serial_number@,
                ),
                None => !conn@.has_loyality(serial_number@),
            },
    {
        let serial = serial_number.to_owned();
        proof {
            use_type_invariant(conn);
        }
        match position_of_loyality(&conn.loyality, &serial) {
            Some(i) => {
                proof {
                    lemma_row_of_index(loyality_rows(conn.loyality@), loyality_key(), i as int);
                }
                Some(conn.loyality[i].clone())
            },
            None => None,
        }
    }

    /// Adds points to the loyalty card of a pass, notes when it was used,
    /// and moves the watermark of the pass forward to that time. Refused
    /// where the sum leaves the range of the column.
    pub fn add_points(serial_number: &str, points: i32, now: Timestamp, conn: &mut Database) -> (r:
        Result<(), Error>)
        ensures
            match r {
                Ok(_) => final(conn)@ == old(conn)@.add_points(
                    serial_number@,
                    points as int,
                    now as int,
                ) && (old(conn)@.has_loyality(serial_number@) ==> i32::MIN <= old(
                    conn,
                )@.loyality_of(serial_number@).current_points + points <= i32::MAX),
                Err(e) => e == Error::Database(DatabaseError::NumericValueOutOfRange) && old(
                    conn,
                )@.has_loyality(serial_number@) && !(i32::MIN <= old(conn)@.loyality_of(
                    serial_number@,
                ).current_points + points <= i32::MAX) && final(conn)@ == old(conn)@,
            },
    {
        let serial = serial_number.to_owned();
        let ghost f = credit_points(serial@, points as int, now as int);
        let ghost rows = loyality_rows(conn.loyality@);
        proof {
            use_type_invariant(&*conn);
            lemma_rewrite_loyality_wf(conn@, f);
            lemma_add_points_wf(conn@, serial@, points as int, now as int);
        }
        match position_of_loyality(&conn.loyality, &serial) {
            Some(i) => {
                proof {
                    lemma_row_of_index(rows, loyality_key(), i as int);
                    lemma_rewrite_one(rows, loyality_key(), f, i as int);
                }
                let sum = match conn.loyality[i].current_points.checked_add(points) {
                    Some(sum) => sum,
                    None => {
                        return Err(Error::Database(DatabaseError::NumericValueOutOfRange));
                    },
                };
                let row = DbPassTypeLoyality {
                    serial_number: conn.loyality[i].serial_number.clone(),
                    already_redeemed: conn.loyality[i].already_redeemed,
                    total_points: conn.loyality[i].total_points,
                    current_points: sum,
                    pass_holder_name: conn.loyality[i].pass_holder_name.clone(),
                    last_used_at: Some(now),
                };
                assert(row@ == f(rows[i as int]));
                conn.set_loyality(i, row);
            },
            None => {
                proof {
                    lemma_rewrite_none(rows, loyality_key(), f, serial@);
                }
            },
        }
        touch(&serial, now, conn);
        Ok(())
    }

    /// Empties the loyalty card of a pass, counts one more redemption, notes
    /// when it was used, and moves the watermark of the pass forward to that
    /// time. Refused where the count leaves the range of the column.
    pub fn redeem_bonus(serial_number: &str, now: Timestamp, conn: &mut Database) -> (r: Result<
        (),
        Error,
    >)
        ensures
            match r {
                Ok(_) => final(conn)@ == old(conn)@.redeem_bonus(serial_number@, now as int) && (
                old(conn)@.has_loyality(serial_number@) ==> old(conn)@.loyality_of(
                    serial_number@,
                ).already_redeemed < i32::MAX),
                Err(e) => e == Error::Database(DatabaseError::NumericValueOutOfRange) && old(
                    conn,
                )@.has_loyality(serial_number@) && old(conn)@.loyality_of(
                    serial_number@,
                ).already_redeemed == i32::MAX && final(conn)@ == old(conn)@,
            },
    {
        let serial = serial_number.to_owned();
        let ghost f = redeem_card(serial@, now as int);
        let ghost rows = loyality_rows(conn.loyality@);
        proof {
            use_type_invariant(&*conn);
            lemma_rewrite_loyality_wf(conn@, f);
            lemma_redeem_bonus_wf(conn@, serial@, now as int);
        }
        match position_of_loyality(&conn.loyality, &serial) {
            Some(i) => {
                proof {
                    lemma_row_of_index(rows, loyality_key(), i as int);
                    lemma_rewrite_one(rows, loyality_key(), f, i as int);
                }
                let count = match conn.loyality[i].already_redeemed.checked_add(1) {
                    Some(count) => count,
                    None => {
                        return Err(Error::Database(DatabaseError::NumericValueOutOfRange));
                    },
                };
                let row = DbPassTypeLoyality {
                    serial_number: conn.loyality[i].serial_number.clone(),
                    already_redeemed: count,
                    total_points: conn.loyality[i].total_points,
                    current_points: 0,
                    pass_holder_name: conn.loyality[i].pass_holder_name.clone(),
                    last_used_at: Some(now),
                };
                assert(row@ == f(rows[i as int]));
                conn.set_loyality(i, row);
            },
            None => {
                proof {
                    lemma_rewrite_none(rows, loyality_key(), f, serial@);
                }
            },
        }
        touch(&serial, now, conn);
        Ok(())
    }
}

/// Moves the watermark of a pass forward to `now`, never backward.
fn touch(serial: &String, now: Timestamp, conn: &mut Database)
    requires
        (Tables { passes: old(conn)@.passes.map_values(touch_pass(serial@, now as int)), ..old(conn)@ }).wf(),
    ensures
        final(conn)@ == (Tables {
            passes: old(conn)@.passes.map_values(touch_pass(serial@, now as int)),
            ..old(conn)@
        }),
{
    let ghost f = touch_pass(serial@, now as int);
    let ghost rows = pass_rows(conn.passes@);
    proof {
        use_type_invariant(&*conn);
    }
    match position_of_pass(&conn.passes, serial) {
        Some(i) => {
            proof {
                lemma_rewrite_one(rows, pass_key(), f, i as int);
            }
            let row = DbPass {
                serial_number: conn.passes[i].serial_number.clone(),
                pass_type_id: conn.passes[i].pass_type_id.clone(),
                auth_token: conn.passes[i].auth_token.clone(),
                last_updated_at: later(conn.passes[i].last_updated_at, now),
                created_at: conn.passes[i].created_at,
                kind: conn.passes[i].kind,
            };
            assert(row@ == f(rows[i as int]));
            conn.set_pass(i, row);
        },
        None => {
            proof {
                lemma_rewrite_none(rows, pass_key(), f, serial@);
            }
        },
    }
}

/// What a pass carries, by kind.
#[derive(Debug, PartialEq, Eq)]
pub enum DbPassType {
    Loyality(DbPassTypeLoyality),
}

impl DbPassType {
    /// Adds what a pass carries to the store.
    pub fn insert(&self, conn: &mut Database) -> (r: Result<(), Error>)
        ensures
            match (r, *self) {
                (Ok(_), DbPassType::Loyality(l)) => !old(conn)@.has_loyality(l.serial_number@)
                    && final(conn)@ == old(conn)@.insert_loyality(l@),
                (Err(e), DbPassType::Loyality(l)) => old(conn)@.has_loyality(l.serial_number@)
                    && e == Error::Database(DatabaseError::UniqueViolation) && final(conn)@ == old(
                    conn,
                )@,
            },
    {
        match self {
            DbPassType::Loyality(l) => l.insert(conn),
        }
    }
}

/// The kind of a pass, without what it carries.
#[derive(Clone, Copy, Debug, PartialEq, Eq, Structural)]
pub enum DbPassTypeHelper {
    Loyality,
}

impl DbPassTypeHelper {
    /// What the pass `serial_number` of this kind carries; it has to be
    /// there.
    pub fn from_serial_number(&self, serial_number: &str, conn: &Database) -> (r: Result<
        DbPassType,
        Error,
    >)
        ensures
            match r {
                Ok(DbPassType::Loyality(l)) => conn@.has_loyality(serial_number@) && l@
                    == conn@.loyality_of(serial_number@),
                Err(e) => !conn@.has_loyality(serial_number@) && e == Error::Database(
                    DatabaseError::RowNotFound,
                ),
            },
    {
        match self {
            DbPassTypeHelper::Loyality => {
                match DbPassTypeLoyality::from_serial_number(serial_number, conn) {
                    Ok(l) => Ok(DbPassType::Loyality(l)),
                    Err(e) => Err(e),
                }
            },
        }
    }
}

impl From<DbPassType> for DbPassTypeHelper {
    fn from(value: DbPassType) -> (kind: Self) {
        match value {
            DbPassType::Loyality(_) => DbPassTypeHelper::Loyality,
        }
    }
}

impl vstd::std_specs::convert::FromSpecImpl<DbPassType> for DbPassTypeHelper {
    open spec fn obeys_from_spec() -> bool {
        true
    }

    open spec fn from_spec(value: DbPassType) -> Self {
        match value {
            DbPassType::Loyality(_) => DbPassTypeHelper::Loyality,
        }
    }
}

/// An issued pass: its serial number, the template it belongs to, the secret
/// that proves control of it, and when its content last changed.
#[derive(Debug, PartialEq, Eq)]
pub struct DbPass {
    pub serial_number: String,
    pub pass_type_id: String,
    pub auth_token: String,
    pub last_updated_at: Timestamp,
    pub created_at: Timestamp,
    pub kind: DbPassTypeHelper,
}

impl View for DbPass {
    type V = PassRow;

    open spec fn view(&self) -> PassRow {
        PassRow {
            serial_number: self.serial_number@,
            pass_type_id: self.pass_type_id@,
            auth_token: self.auth_token@,
            last_updated_at: self.last_updated_at as int,
            created_at: self.created_at as int,
            kind: self.kind,
        }
    }
}

impl Clone for DbPass {
    fn clone(&self) -> (r: Self)
        ensures
            r@ == self@,
    {
        DbPass {
            serial_number: self.serial_number.clone(),
            pass_type_id: self.pass_type_id.clone(),
            auth_token: self.auth_token.clone(),
            last_updated_at: self.last_updated_at,
            created_at: self.created_at,
            kind: self.kind,
        }
    }
}

impl DbPass {
    /// Whether a pass with this serial number is there.
    pub fn pass_exists(serial_number: &str, conn: &Database) -> (b: bool)
        ensures
            b == conn@.has_pass(serial_number@),
    {
        let serial = serial_number.to_owned();
        position_of_pass(&conn.passes, &serial).is_some()
    }

    /// Adds this pass, unless its serial number is taken.
    pub fn insert(&self, conn: &mut Database) -> (r: Result<(), Error>)
        ensures
            match r {
                Ok(_) => !old(conn)@.has_pass(self.serial_number@) && final(conn)@ == old(
                    conn,
                )@.insert_pass(self@),
                Err(e) => old(conn)@.has_pass(self.serial_number@) && e == Error::Database(
                    DatabaseError::UniqueViolation,
                ) && final(conn)@ == old(conn)@,
            },
    {
        proof {
            use_type_invariant(&*conn);
        }
        match position_of_pass(&conn.passes, &self.serial_number) {
            Some(_) => Err(Error::Database(DatabaseError::UniqueViolation)),
            None => {
                let row = self.clone();
                proof {
                    lemma_insert_pass_wf(conn@, row@);
                }
                conn.push_pass(row);
                Ok(())
            },
        }
    }

    /// The pass with this serial number, which has to be there.
    pub fn from_serial_number(serial_number: &str, conn: &Database) -> (r: Result<Self, Error>)
        ensures
            match r {
                Ok(p) => conn@.has_pass(serial_number@) && p@ == conn@.pass(serial_number@),
                Err(e) => !conn@.has_pass(serial_number@) && e == Error::Database(
                    DatabaseError::RowNotFound,
                ),
            },
    {
        match Self::from_serial_number_optional(serial_number, conn) {
            Some(p) => Ok(p),
            None => Err(Error::Database(DatabaseError::RowNotFound)),
        }
    }

    /// The pass with this serial number, if there is one.
    pub fn from_serial_number_optional(serial_number: &str, conn: &Database) -> (r: Option<Self>)
        ensures
            match r {
                Some(p) => conn@.has_pass(serial_number@) && p@ == conn@.pass(serial_number@),
                None => !conn@.has_pass(serial_number@),
            },
    {
        let serial = serial_number.to_owned();
        proof {
            use_type_invariant(conn);
        }
        match position_of_pass(&conn.passes, &serial) {
            Some(i) => {
                proof {
                    lemma_row_of_index(pass_rows(conn.passes@), pass_key(), i as int);
                }
                Some(conn.passes[i].clone())
            },
            None => None,
        }
    }

    /// The passes of one template that a device is registered to and that
    /// changed at `last_updated_at` or later; all that it is registered to
    /// where no time is given. They come in the order in which they were
    /// issued.
    pub fn from_pass_type_last_updated_device_library_id(
        pass_type_id: &str,
        last_updated_at: Option<Timestamp>,
        device_library_id: &str,
        conn: &Database,
    ) -> (found: Vec<Self>)
        ensures
            pass_rows(found@) == conn@.passes_changed_since(
                pass_type_id@,
                device_library_id@,
                moment(last_updated_at),
            ),
    {
        let template = pass_type_id.to_owned();
        let id = device_library_id.to_owned();
        let ghost rows = pass_rows(conn.passes@);
        let ghost p = conn@.changed_since(template@, id@, moment(last_updated_at));
        let mut found: Vec<DbPass> = Vec::new();
        let mut i: usize = 0;
        while i < conn.passes.len()
            invariant
                i <= conn.passes.len(),
                rows == pass_rows(conn.passes@),
                p == conn@.changed_since(template@, id@, moment(last_updated_at)),
                pass_rows(found@) == rows.take(i as int).filter(p),
            decreases conn.passes.len() - i,
        {
            proof {
                lemma_take_next(rows, i as int);
                rows.take(i as int).lemma_filter_push(rows[i as int], p);
            }
            let recent = match last_updated_at {
                Some(since) => conn.passes[i].last_updated_at >= since,
                None => true,
            };
            if conn.passes[i].pass_type_id == template && recent && position_of_registration(
                &conn.registrations,
                &id,
                &conn.passes[i].serial_number,
            ).is_some() {
                let row = conn.passes[i].clone();
                proof {
                    lemma_pass_rows_push(found@, row);
                }
                found.push(row);
            }
            i += 1;
        }
        proof {
            lemma_take_next_all(rows);
        }
        found
    }

    /// The number of devices that are registered to a pass.
    pub fn count_of_devices(serial_number: &str, conn: &Database) -> (n: usize)
        ensures
            n == conn@.count_of_devices(serial_number@),
    {
        let serial = serial_number.to_owned();
        let ghost rows = registration_rows(conn.registrations@);
        let ghost p = of_pass(serial@);
        let mut n: usize = 0;
        let mut i: usize = 0;
        while i < conn.registrations.len()
            invariant
                i <= conn.registrations.len(),
                rows == registration_rows(conn.registrations@),
                p == of_pass(serial@),
                n == rows.take(i as int).filter(p).len(),
                n <= i,
            decreases conn.registrations.len() - i,
        {
            proof {
                lemma_take_next(rows, i as int);
                rows.take(i as int).lemma_filter_push(rows[i as int], p);
            }
            if conn.registrations[i].pass_serial_number == serial {
                n += 1;
            }
            i += 1;
        }
        proof {
            lemma_take_next_all(rows);
        }
        n
    }

    /// Removes a pass, and with it its registrations and its loyalty card.
    pub fn delete(serial_number: &str, conn: &mut Database)
        ensures
            final(conn)@ == old(conn)@.delete_pass(serial_number@),
    {
        let serial = serial_number.to_owned();
        let ghost before = conn@;
        proof {
            use_type_invariant(&*conn);
            lemma_keep_registrations_wf(before, not_of_pass(serial@));
            lemma_keep_loyality_wf(
                Tables { registrations: before.registrations.filter(not_of_pass(serial@)), ..before },
                other_loyality(serial@),
            );
            lemma_delete_pass_wf(before, serial@);
        }
        let ghost rows = registration_rows(conn.registrations@);
        let ghost p = not_of_pass(serial@);
        let mut kept: Vec<DbDevicePassRegistration> = Vec::new();
        let mut i: usize = 0;
        while i < conn.registrations.len()
            invariant
                i <= conn.registrations.len(),
                rows == registration_rows(conn.registrations@),
                p == not_of_pass(serial@),
                registration_rows(kept@) == rows.take(i as int).filter(p),
            decreases conn.registrations.len() - i,
        {
            proof {
                lemma_take_next(rows, i as int);
                rows.take(i as int).lemma_filter_push(rows[i as int], p);
            }
            if !(conn.registrations[i].pass_serial_number == serial) {
                let row = conn.registrations[i].clone();
                proof {
                    lemma_registration_rows_push(kept@, row);
                }
                kept.push(row);
            }
            i += 1;
        }
        let ghost cards = loyality_rows(conn.loyality@);
        let ghost q = other_loyality(serial@);
        let mut loyality: Vec<DbPassTypeLoyality> = Vec::new();
        let mut j: usize = 0;
        while j < conn.loyality.len()
            invariant
                j <= conn.loyality.len(),
                cards == loyality_rows(conn.loyality@),
                q == other_loyality(serial@),
                loyality_rows(loyality@) == cards.take(j as int).filter(q),
            decreases conn.loyality.len() - j,
        {
            proof {
                lemma_take_next(cards, j as int);
                cards.take(j as int).lemma_filter_push(cards[j as int], q);
            }
            if !(conn.loyality[j].serial_number == serial) {
                let row = conn.loyality[j].clone();
                proof {
                    lemma_loyality_rows_push(loyality@, row);
                }
                loyality.push(row);
            }
            j += 1;
        }
        let ghost issued = pass_rows(conn.passes@);
        let ghost o = other_pass(serial@);
        let mut passes: Vec<DbPass> = Vec::new();
        let mut k: usize = 0;
        while k < conn.passes.len()
            invariant
                k <= conn.passes.len(),
                issued == pass_rows(conn.passes@),
                o == other_pass(serial@),
                pass_rows(passes@) == issued.take(k as int).filter(o),
            decreases conn.passes.len() - k,
        {
            proof {
                lemma_take_next(issued, k as int);
                issued.take(k as int).lemma_filter_push(issued[k as int], o);
            }
            if !(conn.passes[k].serial_number == serial) {
                let row = conn.passes[k].clone();
                proof {
                    lemma_pass_rows_push(passes@, row);
                }
                passes.push(row);
            }
            k += 1;
        }
        proof {
            lemma_take_next_all(rows);
            lemma_take_next_all(cards);
            lemma_take_next_all(issued);
        }
        conn.registrations = kept;
        conn.loyality = loyality;
        conn.passes = passes;
    }
}

} // verus!
