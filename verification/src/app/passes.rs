//! Issuing passes, handing out what it takes to render one, and telling the
//! devices that watch a pass that it changed.

use super::App;
use crate::apple::apn::{attempts, dirty_push_tokens, dirty_tokens, PushAttempt, PushOutcome};
use crate::db::keyed::lemma_filter_keeps_all;
use crate::db::models::moment;
use crate::db::queries::{push_tokens_from_serial_number, remove_devices_with_push_tokens};
use crate::db::tables::{token_not_in, LoyalityRow, PassRow};
use crate::db::{texts, DbPass, DbPassTypeHelper, DbPassTypeLoyality};
use crate::error::{DatabaseError, Error};
use crate::time::Timestamp;
use crate::utils::{epoch_millis, fresh_identifier, is_v7_text};
use crate::wallet::{LoyalityPass, PassState};
use vstd::prelude::*;

verus! {

/// A pass as it is issued at `now`.
pub open spec fn issued_pass(
    serial_number: Seq<char>,
    pass_type_id: Seq<char>,
    auth_token: Seq<char>,
    now: int,
) -> PassRow {
    PassRow {
        serial_number,
        pass_type_id,
        auth_token,
        last_updated_at: now,
        created_at: now,
        kind: DbPassTypeHelper::Loyality,
    }
}

/// The loyalty card that a pass is issued with: room for ten points, none
/// collected, never redeemed, never used.
pub open spec fn issued_card(serial_number: Seq<char>, pass_holder_name: Seq<char>) -> LoyalityRow {
    LoyalityRow {
        serial_number,
        already_redeemed: 0,
        total_points: 10,
        current_points: 0,
        pass_holder_name,
        last_used_at: None,
    }
}

impl App {
    /// Issues a pass under a fresh serial number and with a fresh secret,
    /// both identifiers of version 7 for the time `now`, with an empty
    /// loyalty card for its holder: see [`App::add_pass_with`]. Refused,
    /// with nothing changed, where the serial number that was drawn is
    /// taken.
    pub fn add_pass(&mut self, pass_holder_name: &str, now: Timestamp) -> (r: Result<
        (PassState, String),
        Error,
    >)
        ensures
            match r {
                Ok((state, serial)) => {
                    &&& is_v7_text(serial@, epoch_millis(now))
                    &&& is_v7_text(state.authentication_token@, epoch_millis(now))
                    &&& state.serial_number@ == serial@
                    &&& state.loyality_pass.pass_holder_name@ == pass_holder_name@
                    &&& state.loyality_pass.total_points == 10
                    &&& state.loyality_pass.current_points == 0
                    &&& state.loyality_pass.already_redeemed == 0
                    &&& state.loyality_pass.last_use is None
                    &&& !old(self)@.has_pass(serial@)
                    &&& !old(self)@.has_loyality(serial@)
                    &&& final(self)@ == old(self)@.insert_pass(
                        issued_pass(
                            serial@,
                            old(self).template(),
                            state.authentication_token@,
                            now as int,
                        ),
                    ).insert_loyality(issued_card(serial@, pass_holder_name@))
                },
                Err(e) => e == Error::Database(DatabaseError::UniqueViolation) && final(self)@
                    == old(self)@,
            },
            final(self).template() == old(self).template(),
    {
        let serial_number = fresh_identifier(now);
        let auth_token = fresh_identifier(now);
        self.add_pass_with(serial_number, auth_token, pass_holder_name, now)
    }

    /// Issues a pass of this service's template with the given serial number
    /// and secret, with an empty loyalty card for its holder, and returns
    /// what it takes to render it. Refused, with nothing changed, where the
    /// serial number is taken by a pass or a card.
    pub fn add_pass_with(
        &mut self,
        serial_number: String,
        auth_token: String,
        pass_holder_name: &str,
        now: Timestamp,
    ) -> (r: Result<(PassState, String), Error>)
        ensures
            match r {
                Ok((state, serial)) => {
                    &&& serial@ == serial_number@
                    &&& state.serial_number@ == serial_number@
                    &&& state.authentication_token@ == auth_token@
                    &&& state.loyality_pass.pass_holder_name@ == pass_holder_name@
                    &&& state.loyality_pass.total_points == 10
                    &&& state.loyality_pass.current_points == 0
                    &&& state.loyality_pass.already_redeemed == 0
                    &&& state.loyality_pass.last_use is None
                    &&& !old(self)@.has_pass(serial_number@)
                    &&& !old(self)@.has_loyality(serial_number@)
                    &&& final(self)@ == old(self)@.insert_pass(
                        issued_pass(serial_number@, old(self).template(), auth_token@, now as int),
                    ).insert_loyality(issued_card(serial_number@, pass_holder_name@))
                },
                Err(e) => e == Error::Database(DatabaseError::UniqueViolation) && (old(
                    self,
                )@.has_pass(serial_number@) || old(self)@.has_loyality(serial_number@))
                    && final(self)@ == old(self)@,
            },
            final(self).template() == old(self).template(),
    {
        if DbPass::pass_exists(serial_number.as_str(), &self.db_pool)
            || DbPassTypeLoyality::from_serial_number_optional(
            serial_number.as_str(),
            &self.db_pool,
        ).is_some() {
            return Err(Error::Database(DatabaseError::UniqueViolation));
        }
        let pass = DbPass {
            serial_number: serial_number.clone(),
            pass_type_id: self.pass_maker.pass_type_identifier().to_owned(),
            auth_token: auth_token.clone(),
            created_at: now,
            last_updated_at: now,
            kind: DbPassTypeHelper::Loyality,
        };
        let dbtl = DbPassTypeLoyality {
            serial_number: serial_number.clone(),
            total_points: 10,
            current_points: 0,
            already_redeemed: 0,
            pass_holder_name: pass_holder_name.to_owned(),
            last_used_at: None,
        };
        let inserted = pass.insert(&mut self.db_pool);
        assert(inserted is Ok);
        let carded = dbtl.insert(&mut self.db_pool);
        assert(carded is Ok);
        let state = PassState {
            serial_number: serial_number.clone(),
            authentication_token: auth_token,
            loyality_pass: LoyalityPass {
                already_redeemed: dbtl.already_redeemed,
                total_points: dbtl.total_points,
                current_points: dbtl.current_points,
                pass_holder_name: dbtl.pass_holder_name,
                last_use: None,
            },
        };
        Ok((state, serial_number))
    }

    /// What it takes to render a pass, and when the pass last changed.
    /// Refused where the pass is not there or has no loyalty card.
    pub fn pass_package(&self, pass_serial_number: &str) -> (r: Result<(PassState, Timestamp), Error>)
        ensures
            match r {
                Ok((state, changed)) => {
                    &&& self@.has_pass(pass_serial_number@)
                    &&& self@.has_loyality(pass_serial_number@)
                    &&& state.serial_number@ == pass_serial_number@
                    &&& state.authentication_token@ == self@.pass(pass_serial_number@).auth_token
                    &&& changed == self@.pass(pass_serial_number@).last_updated_at
                    &&& state.loyality_pass.pass_holder_name@ == self@.loyality_of(
                        pass_serial_number@,
                    ).pass_holder_name
                    &&& state.loyality_pass.total_points == self@.loyality_of(
                        pass_serial_number@,
                    ).total_points
                    &&& state.loyality_pass.current_points == self@.loyality_of(
                        pass_serial_number@,
                    ).current_points
                    &&& state.loyality_pass.already_redeemed == self@.loyality_of(
                        pass_serial_number@,
                    ).already_redeemed
                    &&& moment(state.loyality_pass.last_use) == self@.loyality_of(
                        pass_serial_number@,
                    ).last_used_at
                },
                Err(Error::PassNotFound) => !self@.has_pass(pass_serial_number@),
                Err(e) => self@.has_pass(pass_serial_number@) && !self@.has_loyality(
                    pass_serial_number@,
                ) && e == Error::Database(DatabaseError::RowNotFound),
            },
    {
        let db_pass = match DbPass::from_serial_number_optional(pass_serial_number, &self.db_pool) {
            Some(p) => p,
            None => {
                return Err(Error::PassNotFound);
            },
        };
        let pass_type = match db_pass.kind.from_serial_number(pass_serial_number, &self.db_pool) {
            Ok(t) => t,
            Err(e) => {
                return Err(e);
            },
        };
        match pass_type {
            crate::db::DbPassType::Loyality(l) => Ok(
                (
                    PassState {
                        serial_number: pass_serial_number.to_owned(),
                        authentication_token: db_pass.auth_token,
                        loyality_pass: LoyalityPass {
                            already_redeemed: l.already_redeemed,
                            total_points: l.total_points,
                            current_points: l.current_points,
                            pass_holder_name: l.pass_holder_name,
                            last_use: l.last_used_at,
                        },
                    },
                    db_pass.last_updated_at,
                ),
            ),
        }
    }

    /// The push tokens of the devices that are to be told that a pass
    /// changed, in the order of their registrations.
    pub fn notification_targets(&self, pass_serial_number: &str) -> (tokens: Vec<String>)
        ensures
            texts(tokens@) == self@.push_tokens(pass_serial_number@),
    {
        push_tokens_from_serial_number(pass_serial_number, &self.db_pool)
    }

    /// Takes in how a round of push attempts ended: every device whose push
    /// token an attempt showed to be invalid is removed, with its
    /// registrations. Other failures change nothing. Returns the number of
    /// push tokens that were found invalid.
    pub fn settle_notification(&mut self, round: &Vec<PushAttempt>) -> (dirty: usize)
        ensures
            final(self)@ == old(self)@.remove_devices_with_push_tokens(
                dirty_tokens(attempts(round@)),
            ),
            dirty == dirty_tokens(attempts(round@)).len(),
            final(self).template() == old(self).template(),
    {
        let dirty_push_tokens = dirty_push_tokens(round);
        let count = dirty_push_tokens.len();
        if count == 0 {
            proof {
                let t = self@;
                let none = texts(dirty_push_tokens@);
                lemma_filter_keeps_all(t.devices, token_not_in(none));
                lemma_filter_keeps_all(t.registrations, t.device_token_not_in(none));
            }
            return 0;
        }
        remove_devices_with_push_tokens(dirty_push_tokens, &mut self.db_pool);
        count
    }

    /// Tells the devices that watch a pass that it changed: one push attempt
    /// per registered device, in the order of the registrations, through
    /// `send`; then the devices whose push token was found invalid are
    /// removed. Returns the attempts with their outcomes.
    pub fn send_update_pass_notification<F: Fn(&String) -> PushOutcome>(
        &mut self,
        pass_serial_number: &str,
        send: F,
    ) -> (round: Vec<PushAttempt>)
        requires
            forall|token: &String| send.requires((token,)),
        ensures
            attempts(round@).map_values(crate::apple::apn::token_of_attempt()) == old(
                self,
            )@.push_tokens(pass_serial_number@),
            forall|i: int|
                0 <= i < round.len() ==> send.ensures(
                    (&(#[trigger] round[i]).push_token,),
                    round[i].outcome,
                ),
            final(self)@ == old(self)@.remove_devices_with_push_tokens(
                dirty_tokens(attempts(round@)),
            ),
            final(self).template() == old(self).template(),
    {
        let push_tokens = self.notification_targets(pass_serial_number);
        let mut round: Vec<PushAttempt> = Vec::new();
        let mut i: usize = 0;
        while i < push_tokens.len()
            invariant
                i <= push_tokens.len(),
                forall|token: &String| send.requires((token,)),
                attempts(round@).map_values(crate::apple::apn::token_of_attempt()) == texts(
                    push_tokens@,
                ).take(i as int),
                forall|k: int|
                    0 <= k < round.len() ==> send.ensures(
                        (&(#[trigger] round[k]).push_token,),
                        round[k].outcome,
                    ),
            decreases push_tokens.len() - i,
        {
            let outcome = send(&push_tokens[i]);
            let attempt = PushAttempt { push_token: push_tokens[i].clone(), outcome };
            proof {
                let f = crate::apple::apn::token_of_attempt();
                assert(attempts(round@.push(attempt)) =~= attempts(round@).push(attempt@));
                assert(attempts(round@).push(attempt@).map_values(f) =~= attempts(
                    round@,
                ).map_values(f).push(attempt.push_token@));
                assert(texts(push_tokens@).take(i as int + 1) =~= texts(push_tokens@).take(
                    i as int,
                ).push(push_tokens[i as int]@));
            }
            round.push(attempt);
            i += 1;
        }
        proof {
            assert(texts(push_tokens@).take(push_tokens.len() as int) =~= texts(push_tokens@));
        }
        self.settle_notification(&round);
        round
    }
}

} // verus!
