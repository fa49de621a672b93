//! The mathematical model of the registration store: four relations, the
//! questions asked of them and the statements that change them.
//!
//! Every contract of the store, and of what is built on it, is stated over
//! this model.

use crate::db::keyed::{distinct_by, has_key, row_of};
use crate::db::models::DbPassTypeHelper;
use crate::time::later_of;
use vstd::prelude::*;

verus! {

pub struct DeviceRow {
    pub device_library_id: Seq<char>,
    pub push_token: Seq<char>,
    pub created_at: int,
    pub last_updated_at: int,
}

pub struct PassRow {
    pub serial_number: Seq<char>,
    pub pass_type_id: Seq<char>,
    pub auth_token: Seq<char>,
    pub last_updated_at: int,
    pub created_at: int,
    pub kind: DbPassTypeHelper,
}

pub struct RegistrationRow {
    pub device_library_id: Seq<char>,
    pub pass_serial_number: Seq<char>,
    pub created_at: int,
}

pub struct LoyalityRow {
    pub serial_number: Seq<char>,
    pub already_redeemed: int,
    pub total_points: int,
    pub current_points: int,
    pub pass_holder_name: Seq<char>,
    pub last_used_at: Option<int>,
}

/// The four relations, each in the order in which its rows were written.
pub struct Tables {
    pub devices: Seq<DeviceRow>,
    pub passes: Seq<PassRow>,
    pub registrations: Seq<RegistrationRow>,
    pub loyality: Seq<LoyalityRow>,
}

// Keys.

pub open spec fn device_key() -> spec_fn(DeviceRow) -> Seq<char> {
    |r: DeviceRow| r.device_library_id
}

pub open spec fn pass_key() -> spec_fn(PassRow) -> Seq<char> {
    |r: PassRow| r.serial_number
}

pub open spec fn registration_key() -> spec_fn(RegistrationRow) -> (Seq<char>, Seq<char>) {
    |r: RegistrationRow| (r.device_library_id, r.pass_serial_number)
}

pub open spec fn loyality_key() -> spec_fn(LoyalityRow) -> Seq<char> {
    |r: LoyalityRow| r.serial_number
}

// Conditions on rows.

/// The registrations of device `d`.
pub open spec fn of_device(d: Seq<char>) -> spec_fn(RegistrationRow) -> bool {
    |r: RegistrationRow| r.device_library_id == d
}

/// The registrations to pass `s`.
pub open spec fn of_pass(s: Seq<char>) -> spec_fn(RegistrationRow) -> bool {
    |r: RegistrationRow| r.pass_serial_number == s
}

/// All registrations but that of device `d` to pass `s`.
pub open spec fn other_registration(d: Seq<char>, s: Seq<char>) -> spec_fn(
    RegistrationRow,
) -> bool {
    |r: RegistrationRow| !(r.device_library_id == d && r.pass_serial_number == s)
}

/// The registration of device `d` to pass `s`.
pub open spec fn this_registration(d: Seq<char>, s: Seq<char>) -> spec_fn(RegistrationRow) -> bool {
    |r: RegistrationRow| r.device_library_id == d && r.pass_serial_number == s
}

/// The registrations of all devices but `d`.
pub open spec fn not_of_device(d: Seq<char>) -> spec_fn(RegistrationRow) -> bool {
    |r: RegistrationRow| r.device_library_id != d
}

/// The registrations to all passes but `s`.
pub open spec fn not_of_pass(s: Seq<char>) -> spec_fn(RegistrationRow) -> bool {
    |r: RegistrationRow| r.pass_serial_number != s
}

/// All devices but `d`.
pub open spec fn other_device(d: Seq<char>) -> spec_fn(DeviceRow) -> bool {
    |r: DeviceRow| r.device_library_id != d
}

/// All passes but `s`.
pub open spec fn other_pass(s: Seq<char>) -> spec_fn(PassRow) -> bool {
    |r: PassRow| r.serial_number != s
}

/// All loyalty cards but that of pass `s`.
pub open spec fn other_loyality(s: Seq<char>) -> spec_fn(LoyalityRow) -> bool {
    |r: LoyalityRow| r.serial_number != s
}

/// The devices whose push token is none of `tokens`.
pub open spec fn token_not_in(tokens: Seq<Seq<char>>) -> spec_fn(DeviceRow) -> bool {
    |r: DeviceRow| !tokens.contains(r.push_token)
}

// Rewrites of rows.

/// Gives device `d` the push token `token` and the update time `now`.
pub open spec fn refresh_device(d: Seq<char>, token: Seq<char>, now: int) -> spec_fn(
    DeviceRow,
) -> DeviceRow {
    |r: DeviceRow|
        if r.device_library_id == d {
            DeviceRow { push_token: token, last_updated_at: now, ..r }
        } else {
            r
        }
}

/// Moves the watermark of pass `s` forward to `now`, never backward.
pub open spec fn touch_pass(s: Seq<char>, now: int) -> spec_fn(PassRow) -> PassRow {
    |r: PassRow|
        if r.serial_number == s {
            PassRow { last_updated_at: later_of(r.last_updated_at, now), ..r }
        } else {
            r
        }
}

/// Adds `points` to the loyalty card of pass `s`, used at `now`.
pub open spec fn credit_points(s: Seq<char>, points: int, now: int) -> spec_fn(
    LoyalityRow,
) -> LoyalityRow {
    |r: LoyalityRow|
        if r.serial_number == s {
            LoyalityRow {
                current_points: r.current_points + points,
                last_used_at: Some(now),
                ..r
            }
        } else {
            r
        }
}

/// Empties the loyalty card of pass `s` and counts one more redemption.
pub open spec fn redeem_card(s: Seq<char>, now: int) -> spec_fn(LoyalityRow) -> LoyalityRow {
    |r: LoyalityRow|
        if r.serial_number == s {
            LoyalityRow {
                current_points: 0,
                already_redeemed: r.already_redeemed + 1,
                last_used_at: Some(now),
                ..r
            }
        } else {
            r
        }
}

impl Tables {
    pub open spec fn empty() -> Tables {
        Tables {
            devices: Seq::empty(),
            passes: Seq::empty(),
            registrations: Seq::empty(),
            loyality: Seq::empty(),
        }
    }

    // Questions.

    pub open spec fn has_device(self, d: Seq<char>) -> bool {
        has_key(self.devices, device_key(), d)
    }

    pub open spec fn device(self, d: Seq<char>) -> DeviceRow {
        row_of(self.devices, device_key(), d)
    }

    pub open spec fn has_pass(self, s: Seq<char>) -> bool {
        has_key(self.passes, pass_key(), s)
    }

    pub open spec fn pass(self, s: Seq<char>) -> PassRow {
        row_of(self.passes, pass_key(), s)
    }

    pub open spec fn has_loyality(self, s: Seq<char>) -> bool {
        has_key(self.loyality, loyality_key(), s)
    }

    pub open spec fn loyality_of(self, s: Seq<char>) -> LoyalityRow {
        row_of(self.loyality, loyality_key(), s)
    }

    /// Device `d` is registered to pass `s`.
    pub open spec fn is_registered(self, d: Seq<char>, s: Seq<char>) -> bool {
        has_key(self.registrations, registration_key(), (d, s))
    }

    /// The number of rows that register device `d` to pass `s`.
    pub open spec fn count_of_registrations(self, d: Seq<char>, s: Seq<char>) -> nat {
        self.registrations.filter(this_registration(d, s)).len()
    }

    /// The number of passes that device `d` is registered to.
    pub open spec fn count_of_passes(self, d: Seq<char>) -> nat {
        self.registrations.filter(of_device(d)).len()
    }

    /// The number of devices that are registered to pass `s`.
    pub open spec fn count_of_devices(self, s: Seq<char>) -> nat {
        self.registrations.filter(of_pass(s)).len()
    }

    /// Pass `s` exists and its secret is `token`.
    pub open spec fn token_matches(self, s: Seq<char>, token: Seq<char>) -> bool {
        exists|i: int|
            0 <= i < self.passes.len() && (#[trigger] self.passes[i]).serial_number == s
                && self.passes[i].auth_token == token
    }

    /// The push token of the device of a registration.
    pub open spec fn token_of(self) -> spec_fn(RegistrationRow) -> Seq<char> {
        |r: RegistrationRow| self.device(r.device_library_id).push_token
    }

    /// The push tokens of the devices registered to pass `s`, in the order
    /// of their registrations.
    pub open spec fn push_tokens(self, s: Seq<char>) -> Seq<Seq<char>> {
        self.registrations.filter(of_pass(s)).map_values(self.token_of())
    }

    /// A pass of template `pass_type_id` that device `d` is registered to and
    /// that changed at `since` or later, if `since` is given.
    pub open spec fn changed_since(
        self,
        pass_type_id: Seq<char>,
        d: Seq<char>,
        since: Option<int>,
    ) -> spec_fn(PassRow) -> bool {
        |p: PassRow|
            p.pass_type_id == pass_type_id && self.is_registered(d, p.serial_number) && (
            since is Some ==> p.last_updated_at >= since->0)
    }

    /// The passes that match `changed_since`, in the order in which they
    /// were issued.
    pub open spec fn passes_changed_since(
        self,
        pass_type_id: Seq<char>,
        d: Seq<char>,
        since: Option<int>,
    ) -> Seq<PassRow> {
        self.passes.filter(self.changed_since(pass_type_id, d, since))
    }

    // Validity.

    /// No key occurs twice, and every registration names a device and a
    /// pass that exist.
    pub open spec fn wf(self) -> bool {
        &&& distinct_by(self.devices, device_key())
        &&& distinct_by(self.passes, pass_key())
        &&& distinct_by(self.registrations, registration_key())
        &&& distinct_by(self.loyality, loyality_key())
        &&& forall|i: int|
            0 <= i < self.registrations.len() ==> self.has_device(
                (#[trigger] self.registrations[i]).device_library_id,
            ) && self.has_pass(self.registrations[i].pass_serial_number)
    }

    /// No key occurs twice in a relation.
    pub open spec fn keys_distinct(self) -> bool {
        &&& distinct_by(self.devices, device_key())
        &&& distinct_by(self.passes, pass_key())
        &&& distinct_by(self.registrations, registration_key())
        &&& distinct_by(self.loyality, loyality_key())
    }

    /// Every registration names a device and a pass that exist.
    pub open spec fn references_hold(self) -> bool {
        forall|i: int|
            0 <= i < self.registrations.len() ==> self.has_device(
                (#[trigger] self.registrations[i]).device_library_id,
            ) && self.has_pass(self.registrations[i].pass_serial_number)
    }

    /// Every device is registered to some pass.
    pub open spec fn no_orphan_devices(self) -> bool {
        forall|i: int|
            0 <= i < self.devices.len() ==> self.count_of_passes(
                (#[trigger] self.devices[i]).device_library_id,
            ) > 0
    }

    // Statements.

    /// Inserts device `d`, or refreshes its push token and update time.
    pub open spec fn upsert_device(self, d: Seq<char>, token: Seq<char>, now: int) -> Tables {
        Tables {
            devices: if self.has_device(d) {
                self.devices.map_values(refresh_device(d, token, now))
            } else {
                self.devices.push(
                    DeviceRow {
                        device_library_id: d,
                        push_token: token,
                        created_at: now,
                        last_updated_at: now,
                    },
                )
            },
            ..self
        }
    }

    /// Registers device `d` to pass `s`, unless it is registered already.
    pub open spec fn insert_registration(self, d: Seq<char>, s: Seq<char>, now: int) -> Tables {
        if self.is_registered(d, s) {
            self
        } else {
            Tables {
                registrations: self.registrations.push(
                    RegistrationRow { device_library_id: d, pass_serial_number: s, created_at: now },
                ),
                ..self
            }
        }
    }

    /// Removes the registration of device `d` to pass `s`, if there is one.
    pub open spec fn delete_registration(self, d: Seq<char>, s: Seq<char>) -> Tables {
        Tables { registrations: self.registrations.filter(other_registration(d, s)), ..self }
    }

    /// Removes device `d` and with it its registrations.
    pub open spec fn delete_device(self, d: Seq<char>) -> Tables {
        Tables {
            devices: self.devices.filter(other_device(d)),
            registrations: self.registrations.filter(not_of_device(d)),
            ..self
        }
    }

    /// The registrations of the devices whose push token is none of
    /// `tokens`.
    pub open spec fn device_token_not_in(self, tokens: Seq<Seq<char>>) -> spec_fn(
        RegistrationRow,
    ) -> bool {
        |r: RegistrationRow| !tokens.contains(self.device(r.device_library_id).push_token)
    }

    /// Removes every device whose push token is one of `tokens`, and with
    /// it its registrations.
    pub open spec fn remove_devices_with_push_tokens(self, tokens: Seq<Seq<char>>) -> Tables {
        Tables {
            devices: self.devices.filter(token_not_in(tokens)),
            registrations: self.registrations.filter(self.device_token_not_in(tokens)),
            ..self
        }
    }

    /// Adds a pass.
    pub open spec fn insert_pass(self, p: PassRow) -> Tables {
        Tables { passes: self.passes.push(p), ..self }
    }

    /// Removes pass `s`, and with it its registrations and its loyalty card.
    pub open spec fn delete_pass(self, s: Seq<char>) -> Tables {
        Tables {
            passes: self.passes.filter(other_pass(s)),
            registrations: self.registrations.filter(not_of_pass(s)),
            loyality: self.loyality.filter(other_loyality(s)),
            ..self
        }
    }

    /// Adds a loyalty card.
    pub open spec fn insert_loyality(self, l: LoyalityRow) -> Tables {
        Tables { loyality: self.loyality.push(l), ..self }
    }

    /// Adds points to the loyalty card of pass `s` and moves the watermark
    /// of the pass.
    pub open spec fn add_points(self, s: Seq<char>, points: int, now: int) -> Tables {
        Tables {
            loyality: self.loyality.map_values(credit_points(s, points, now)),
            passes: self.passes.map_values(touch_pass(s, now)),
            ..self
        }
    }

    /// Redeems the loyalty card of pass `s` and moves the watermark of the
    /// pass.
    pub open spec fn redeem_bonus(self, s: Seq<char>, now: int) -> Tables {
        Tables {
            loyality: self.loyality.map_values(redeem_card(s, now)),
            passes: self.passes.map_values(touch_pass(s, now)),
            ..self
        }
    }

    /// One registration call: the device is inserted or refreshed, then
    /// registered to the pass unless it is already.
    pub open spec fn register(self, d: Seq<char>, s: Seq<char>, token: Seq<char>, now: int) -> Tables {
        self.upsert_device(d, token, now).insert_registration(d, s, now)
    }

    /// One deregistration call: the registration goes, and with its last
    /// registration the device.
    pub open spec fn deregister(self, d: Seq<char>, s: Seq<char>) -> Tables {
        let after = self.delete_registration(d, s);
        if after.count_of_passes(d) == 0 {
            after.delete_device(d)
        } else {
            after
        }
    }
}

} // verus!
