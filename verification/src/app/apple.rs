//! What devices ask of the service: to be registered to a pass, to be
//! deregistered from it, and which of their passes changed.

use super::App;
use crate::db::keyed::{lemma_take_next, lemma_take_next_all};
use crate::db::models::moment;
use crate::db::queries::{insert_device_if_not_exist, pass_registered_for_device};
use crate::db::tables::PassRow;
use crate::db::{pass_rows, texts, DbDevice, DbPass};
use crate::error::{DatabaseError, Error};
use crate::time::{later, later_of, Timestamp};
use vstd::prelude::*;

verus! {

/// The latest time at which one of `passes` changed (of no interest where
/// there are none).
pub open spec fn newest(passes: Seq<PassRow>) -> int
    decreases passes.len(),
{
    if passes.len() <= 1 {
        passes[0].last_updated_at
    } else {
        later_of(newest(passes.drop_last()), passes.last().last_updated_at)
    }
}

/// The watermark that goes out with `passes`: the latest time at which one
/// of them changed, and the time of the answer where there are none.
pub open spec fn watermark(passes: Seq<PassRow>, now: int) -> int {
    if passes.len() == 0 {
        now
    } else {
        newest(passes)
    }
}

/// The serial number of a pass.

pub open spec fn serial_of() -> spec_fn(PassRow) -> Seq<char> {
    |p: PassRow| p.serial_number
}

/// The newest change is not older than any change, and is one of them.
pub proof fn lemma_newest(passes: Seq<PassRow>)
    requires
        passes.len() > 0,
    ensures
        forall|i: int| 0 <= i < passes.len() ==> (#[trigger] passes[i]).last_updated_at <= newest(passes),
        exists|i: int| 0 <= i < passes.len() && (#[trigger] passes[i]).last_updated_at == newest(passes),
    decreases passes.len(),
{
    if passes.len() > 1 {
        let front = passes.drop_last();
        lemma_newest(front);
        assert forall|i: int| 0 <= i < passes.len() implies (#[trigger] passes[i]).last_updated_at
            <= newest(passes) by {
            if i < front.len() {
                assert(front[i] == passes[i]);
            }
        }
        let k = choose|i: int| 0 <= i < front.len() && (#[trigger] front[i]).last_updated_at == newest(front);
        assert(front[k] == passes[k]);
        if newest(passes) == newest(front) {
            assert(passes[k].last_updated_at == newest(passes));
        } else {
            assert(passes[passes.len() - 1].last_updated_at == newest(passes));
        }
    } else {
        assert(passes[0].last_updated_at == newest(passes));
    }
}

impl App {
    /// Registers a device to a pass and tells whether it was registered to
    /// it before. The device is inserted, or its push token and update time
    /// are refreshed, in either case. Refused where the pass is not there.
    pub fn apple_device_registration(
        &mut self,
        device_library_id: &str,
        serial_number: &str,
        push_token: &str,
        now: Timestamp,
    ) -> (r: Result<bool, Error>)
        ensures
            match r {
                Ok(already_exists) => old(self)@.has_pass(serial_number@) && already_exists == old(
                    self,
                )@.is_registered(device_library_id@, serial_number@) && final(self)@ == old(
                    self,
                )@.register(device_library_id@, serial_number@, push_token@, now as int),
                Err(e) => !old(self)@.has_pass(serial_number@) && e == Error::Database(
                    DatabaseError::ForeignKeyViolation,
                ) && final(self)@ == old(self)@,
            },
            final(self).template() == old(self).template(),
    {
        let already_exists = pass_registered_for_device(
            device_library_id,
            serial_number,
            &self.db_pool,
        );
        match insert_device_if_not_exist(
            device_library_id,
            push_token,
            serial_number,
            now,
            &mut self.db_pool,
        ) {
            Ok(_) => Ok(already_exists),
            Err(e) => Err(e),
        }
    }

    /// Deregisters a device from a pass; with its last registration the
    /// device goes too. The pass stays.
    pub fn apple_device_unregistration(&mut self, device_library_id: &str, serial_number: &str)
        ensures
            final(self)@ == old(self)@.deregister(device_library_id@, serial_number@),
            final(self).template() == old(self).template(),
    {
        DbDevice::remove_pass(device_library_id, serial_number, &mut self.db_pool);
        if DbDevice::count_of_passes(device_library_id, &self.db_pool) == 0 {
            DbDevice::delete(device_library_id, &mut self.db_pool);
        }
    }

    /// The serial numbers of the passes of one template that a device is
    /// registered to and that changed at `passes_updated_since` or later (all
    /// that it is registered to where no time is given), and the watermark
    /// to ask with next time: the latest change among them, or `now` where
    /// there are none.
    pub fn apple_updatable_passes(
        &self,
        pass_type_id: &str,
        device_library_id: &str,
        passes_updated_since: Option<Timestamp>,
        now: Timestamp,
    ) -> (r: (Vec<String>, Timestamp))
        ensures
            texts(r.0@) == self@.passes_changed_since(
                pass_type_id@,
                device_library_id@,
                moment(passes_updated_since),
            ).map_values(serial_of()),
            r.1 == watermark(
                self@.passes_changed_since(
                    pass_type_id@,
                    device_library_id@,
                    moment(passes_updated_since),
                ),
                now as int,
            ),
    {
        let passes = DbPass::from_pass_type_last_updated_device_library_id(
            pass_type_id,
            passes_updated_since,
            device_library_id,
            &self.db_pool,
        );
        let ghost rows = pass_rows(passes@);
        let mut serial_numbers: Vec<String> = Vec::new();
        let mut last_updated: Timestamp = now;
        let mut i: usize = 0;
        while i < passes.len()
            invariant
                i <= passes.len(),
                rows == pass_rows(passes@),
                texts(serial_numbers@) == rows.take(i as int).map_values(serial_of()),
                last_updated == watermark(rows.take(i as int), now as int),
            decreases passes.len() - i,
        {
            proof {
                lemma_take_next(rows, i as int);
                assert(rows.take(i as int + 1).drop_last() =~= rows.take(i as int));
            }
            let serial = passes[i].serial_number.clone();
            proof {
                assert(rows.take(i as int).push(rows[i as int]).map_values(serial_of())
                    =~= rows.take(i as int).map_values(serial_of()).push(serial@));
                assert(texts(serial_numbers@.push(serial)) =~= texts(serial_numbers@).push(serial@));
            }
            serial_numbers.push(serial);
            last_updated = if i == 0 {
                passes[i].last_updated_at
            } else {
                later(last_updated, passes[i].last_updated_at)
            };
            i += 1;
        }
        proof {
            lemma_take_next_all(rows);
        }
        (serial_numbers, last_updated)
    }
}

} // verus!
