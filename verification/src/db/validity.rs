//! Every statement of the store takes valid tables to valid tables.

use crate::db::keyed::{
    lemma_filter_distinct, lemma_filter_embeds, lemma_filter_has_key, lemma_push_distinct,
    lemma_push_has_key, lemma_rewrite_keys, lemma_row_of_index,
};
use crate::db::tables::{
    credit_points, device_key, loyality_key, not_of_device, not_of_pass, other_device,
    other_loyality, other_pass, other_registration, pass_key, redeem_card, refresh_device,
    registration_key, token_not_in, touch_pass, DeviceRow, LoyalityRow, PassRow, RegistrationRow,
    Tables,
};
use vstd::prelude::*;

verus! {

/// The registrations of `after`, each of which is one of `before`, name
/// devices and passes of `after` if the devices and passes that the
/// registrations of `before` name are still there.
proof fn lemma_references_kept(before: Tables, after: Tables)
    requires
        before.wf(),
        forall|i: int|
            0 <= i < after.registrations.len() ==> before.registrations.contains(
                #[trigger] after.registrations[i],
            ),
        forall|i: int|
            0 <= i < after.registrations.len() ==> after.has_device(
                (#[trigger] after.registrations[i]).device_library_id,
            ) || !before.has_device(after.registrations[i].device_library_id),
        forall|i: int|
            0 <= i < after.registrations.len() ==> after.has_pass(
                (#[trigger] after.registrations[i]).pass_serial_number,
            ) || !before.has_pass(after.registrations[i].pass_serial_number),
    ensures
        forall|i: int|
            0 <= i < after.registrations.len() ==> after.has_device(
                (#[trigger] after.registrations[i]).device_library_id,
            ) && after.has_pass(after.registrations[i].pass_serial_number),
{
    assert forall|i: int| 0 <= i < after.registrations.len() implies after.has_device(
        (#[trigger] after.registrations[i]).device_library_id,
    ) && after.has_pass(after.registrations[i].pass_serial_number) by {
        let r = after.registrations[i];
        assert(before.registrations.contains(r));
        let j = choose|j: int| 0 <= j < before.registrations.len() && before.registrations[j] == r;
        assert(before.has_device(before.registrations[j].device_library_id));
        assert(before.has_pass(before.registrations[j].pass_serial_number));
    }
}

/// The rows that a filter keeps are rows of the sequence it was given.
pub proof fn lemma_filter_rows<A>(s: Seq<A>, p: spec_fn(A) -> bool)
    ensures
        forall|i: int| 0 <= i < s.filter(p).len() ==> s.contains(#[trigger] s.filter(p)[i]),
        forall|i: int| 0 <= i < s.filter(p).len() ==> p(#[trigger] s.filter(p)[i]),
{
    let at = lemma_filter_embeds(s, p);
    assert forall|i: int| 0 <= i < s.filter(p).len() implies s.contains(
        #[trigger] s.filter(p)[i],
    ) by {
        assert(s[at[i]] == s.filter(p)[i]);
    }
    assert forall|i: int| 0 <= i < s.filter(p).len() implies p(#[trigger] s.filter(p)[i]) by {
        s.lemma_filter_pred(p, i);
    }
}

/// Dropping registrations keeps the tables valid.
pub proof fn lemma_keep_registrations_wf(t: Tables, p: spec_fn(RegistrationRow) -> bool)
    requires
        t.wf(),
    ensures
        (Tables { registrations: t.registrations.filter(p), ..t }).wf(),
{
    let u = Tables { registrations: t.registrations.filter(p), ..t };
    lemma_filter_distinct(t.registrations, registration_key(), p);
    lemma_filter_rows(t.registrations, p);
    lemma_references_kept(t, u);
}

/// Dropping loyalty cards keeps the tables valid.
pub proof fn lemma_keep_loyality_wf(t: Tables, p: spec_fn(LoyalityRow) -> bool)
    requires
        t.wf(),
    ensures
        (Tables { loyality: t.loyality.filter(p), ..t }).wf(),
{
    let u = Tables { loyality: t.loyality.filter(p), ..t };
    lemma_filter_distinct(t.loyality, loyality_key(), p);
    assert forall|i: int| 0 <= i < u.registrations.len() implies u.has_device(
        (#[trigger] u.registrations[i]).device_library_id,
    ) && u.has_pass(u.registrations[i].pass_serial_number) by {
        assert(t.has_pass(t.registrations[i].pass_serial_number));
    }
}

/// Rewriting loyalty cards under their keys keeps the tables valid.
pub proof fn lemma_rewrite_loyality_wf(t: Tables, f: spec_fn(LoyalityRow) -> LoyalityRow)
    requires
        t.wf(),
        forall|x: LoyalityRow| #[trigger] loyality_key()(f(x)) == loyality_key()(x),
    ensures
        (Tables { loyality: t.loyality.map_values(f), ..t }).wf(),
{
    let u = Tables { loyality: t.loyality.map_values(f), ..t };
    lemma_rewrite_keys(t.loyality, loyality_key(), f);
    assert forall|i: int| 0 <= i < u.registrations.len() implies u.has_device(
        (#[trigger] u.registrations[i]).device_library_id,
    ) && u.has_pass(u.registrations[i].pass_serial_number) by {
        assert(t.has_pass(t.registrations[i].pass_serial_number));
    }
}

/// Inserting or refreshing a device keeps the tables valid, puts the

/// device there with the given push token, and leaves every other device

/// as it was.

pub proof fn lemma_upsert_device_wf(t: Tables, d: Seq<char>, token: Seq<char>, now: int)
    requires
        t.wf(),
    ensures
        t.upsert_device(d, token, now).wf(),
        t.upsert_device(d, token, now).has_device(d),
        t.upsert_device(d, token, now).device(d).push_token == token,
        t.upsert_device(d, token, now).device(d).last_updated_at == now,
        forall|e: Seq<char>|
            t.upsert_device(d, token, now).has_device(e) <==> t.has_device(e) || e == d,
        forall|e: Seq<char>|
            e != d && t.has_device(e) ==> t.upsert_device(d, token, now).device(e) == t.device(e),
{
    let u = t.upsert_device(d, token, now);
    let f = refresh_device(d, token, now);
    if t.has_device(d) {
        lemma_rewrite_keys(t.devices, device_key(), f);
        assert forall|e: Seq<char>| t.has_device(e) implies u.device(e) == f(t.device(e)) by {
            crate::db::keyed::lemma_rewrite_row_of(t.devices, device_key(), f, e);
        }
    } else {
        let x = DeviceRow {
            device_library_id: d,
            push_token: token,
            created_at: now,
            last_updated_at: now,
        };
        lemma_push_distinct(t.devices, device_key(), x);
        assert forall|e: Seq<char>| u.has_device(e) <==> t.has_device(e) || e == d by {
            lemma_push_has_key(t.devices, device_key(), x, e);
        }
        lemma_row_of_index(u.devices, device_key(), t.devices.len() as int);
        assert forall|e: Seq<char>| e != d && t.has_device(e) implies u.device(e) == t.device(
            e,
        ) by {
            let i = choose|i: int|
                0 <= i < t.devices.len() && #[trigger] device_key()(t.devices[i]) == e;
            lemma_row_of_index(t.devices, device_key(), i);
            assert(u.devices[i] == t.devices[i]);
            lemma_row_of_index(u.devices, device_key(), i);
        }
    }
    assert forall|i: int| 0 <= i < u.registrations.len() implies u.has_device(
        (#[trigger] u.registrations[i]).device_library_id,
    ) && u.has_pass(u.registrations[i].pass_serial_number) by {
        assert(t.has_device(t.registrations[i].device_library_id));
    }
}

/// Adding a device under a new identifier keeps the tables valid.
pub proof fn lemma_insert_device_wf(t: Tables, x: DeviceRow)
    requires
        t.wf(),
        !t.has_device(x.device_library_id),
    ensures
        (Tables { devices: t.devices.push(x), ..t }).wf(),
        forall|e: Seq<char>|
            (Tables { devices: t.devices.push(x), ..t }).has_device(e) <==> t.has_device(e) || e
                == x.device_library_id,
{
    let u = Tables { devices: t.devices.push(x), ..t };
    lemma_push_distinct(t.devices, device_key(), x);
    assert forall|e: Seq<char>| u.has_device(e) <==> t.has_device(e) || e
        == x.device_library_id by {
        lemma_push_has_key(t.devices, device_key(), x, e);
    }
    assert forall|i: int| 0 <= i < u.registrations.len() implies u.has_device(
        (#[trigger] u.registrations[i]).device_library_id,
    ) && u.has_pass(u.registrations[i].pass_serial_number) by {
        assert(t.has_device(t.registrations[i].device_library_id));
    }
}

/// Registering a device that is there to a pass that is there keeps the

/// tables valid and adds that registration to the registrations, no other.

pub proof fn lemma_insert_registration_wf(t: Tables, d: Seq<char>, s: Seq<char>, now: int)
    requires
        t.wf(),
        t.has_device(d),
        t.has_pass(s),
    ensures
        t.insert_registration(d, s, now).wf(),
        t.insert_registration(d, s, now).is_registered(d, s),
        forall|e: Seq<char>, r: Seq<char>|
            t.insert_registration(d, s, now).is_registered(e, r) <==> t.is_registered(e, r) || (e
                == d && r == s),
{
    let u = t.insert_registration(d, s, now);
    if !t.is_registered(d, s) {
        let x = RegistrationRow { device_library_id: d, pass_serial_number: s, created_at: now };
        lemma_push_distinct(t.registrations, registration_key(), x);
        assert forall|e: Seq<char>, r: Seq<char>|
            u.is_registered(e, r) <==> t.is_registered(e, r) || (e == d && r == s) by {
            lemma_push_has_key(t.registrations, registration_key(), x, (e, r));
        }
        assert forall|i: int| 0 <= i < u.registrations.len() implies u.has_device(
            (#[trigger] u.registrations[i]).device_library_id,
        ) && u.has_pass(u.registrations[i].pass_serial_number) by {
            if i < t.registrations.len() {
                assert(t.has_device(t.registrations[i].device_library_id));
            }
        }
    }
}

/// Removing a registration keeps the tables valid and takes that

/// registration from the registrations, no other.

pub proof fn lemma_delete_registration_wf(t: Tables, d: Seq<char>, s: Seq<char>)
    requires
        t.wf(),
    ensures
        t.delete_registration(d, s).wf(),
        forall|e: Seq<char>, r: Seq<char>|
            t.delete_registration(d, s).is_registered(e, r) <==> t.is_registered(e, r) && !(e == d
                && r == s),
{
    let u = t.delete_registration(d, s);
    let p = other_registration(d, s);
    lemma_filter_distinct(t.registrations, registration_key(), p);
    lemma_filter_rows(t.registrations, p);
    lemma_references_kept(t, u);
    assert forall|e: Seq<char>, r: Seq<char>|
        u.is_registered(e, r) <==> t.is_registered(e, r) && !(e == d && r == s) by {
        lemma_filter_has_key(t.registrations, registration_key(), p, (e, r));
        if t.is_registered(e, r) && !(e == d && r == s) {
            let i = choose|i: int|
                0 <= i < t.registrations.len() && #[trigger] registration_key()(
                    t.registrations[i],
                ) == (e, r);
            assert(p(t.registrations[i]));
        }
    }
}

/// Removing a device with its registrations keeps the tables valid and

/// takes that device from the devices, no other.

pub proof fn lemma_delete_device_wf(t: Tables, d: Seq<char>)
    requires
        t.wf(),
    ensures
        t.delete_device(d).wf(),
        forall|e: Seq<char>| t.delete_device(d).has_device(e) <==> t.has_device(e) && e != d,
{
    let u = t.delete_device(d);
    lemma_filter_distinct(t.devices, device_key(), other_device(d));
    lemma_filter_distinct(t.registrations, registration_key(), not_of_device(d));
    lemma_filter_rows(t.registrations, not_of_device(d));
    assert forall|e: Seq<char>| u.has_device(e) <==> t.has_device(e) && e != d by {
        lemma_filter_has_key(t.devices, device_key(), other_device(d), e);
        if t.has_device(e) && e != d {
            let i = choose|i: int|
                0 <= i < t.devices.len() && #[trigger] device_key()(t.devices[i]) == e;
            assert(other_device(d)(t.devices[i]));
        }
    }
    lemma_references_kept(t, u);
}

/// Removing the devices with given push tokens, with their registrations,

/// keeps the tables valid; the devices with other push tokens stay as they

/// were.

pub proof fn lemma_remove_devices_wf(t: Tables, tokens: Seq<Seq<char>>)
    requires
        t.wf(),
    ensures
        t.remove_devices_with_push_tokens(tokens).wf(),
        forall|e: Seq<char>|
            t.remove_devices_with_push_tokens(tokens).has_device(e) <==> t.has_device(e)
                && !tokens.contains(t.device(e).push_token),
        forall|e: Seq<char>|
            t.remove_devices_with_push_tokens(tokens).has_device(e)
                ==> t.remove_devices_with_push_tokens(tokens).device(e) == t.device(e),
{
    let u = t.remove_devices_with_push_tokens(tokens);
    let p = token_not_in(tokens);
    let q = t.device_token_not_in(tokens);
    lemma_filter_distinct(t.devices, device_key(), p);
    lemma_filter_distinct(t.registrations, registration_key(), q);
    lemma_filter_rows(t.registrations, q);
    assert forall|e: Seq<char>|
        u.has_device(e) <==> t.has_device(e) && !tokens.contains(t.device(e).push_token) by {
        lemma_filter_has_key(t.devices, device_key(), p, e);
        if u.has_device(e) {
            let i = choose|i: int|
                0 <= i < t.devices.len() && #[trigger] device_key()(t.devices[i]) == e && p(
                    t.devices[i],
                );
            lemma_row_of_index(t.devices, device_key(), i);
        }
        if t.has_device(e) && !tokens.contains(t.device(e).push_token) {
            let i = choose|i: int|
                0 <= i < t.devices.len() && #[trigger] device_key()(t.devices[i]) == e;
            lemma_row_of_index(t.devices, device_key(), i);
            assert(p(t.devices[i]));
        }
    }
    assert forall|e: Seq<char>| u.has_device(e) implies u.device(e) == t.device(e) by {
        crate::db::keyed::lemma_filter_row_of(t.devices, device_key(), p, e);
    }
    lemma_references_kept(t, u);
}

/// Adding a pass under a new serial number keeps the tables valid.

pub proof fn lemma_insert_pass_wf(t: Tables, p: PassRow)
    requires
        t.wf(),
        !t.has_pass(p.serial_number),
    ensures
        t.insert_pass(p).wf(),
        t.insert_pass(p).has_pass(p.serial_number),
        t.insert_pass(p).pass(p.serial_number) == p,
        forall|s: Seq<char>| t.insert_pass(p).has_pass(s) <==> t.has_pass(s) || s == p.serial_number,
{
    let u = t.insert_pass(p);
    lemma_push_distinct(t.passes, pass_key(), p);
    assert forall|s: Seq<char>| u.has_pass(s) <==> t.has_pass(s) || s == p.serial_number by {
        lemma_push_has_key(t.passes, pass_key(), p, s);
    }
    lemma_row_of_index(u.passes, pass_key(), t.passes.len() as int);
    assert forall|i: int| 0 <= i < u.registrations.len() implies u.has_device(
        (#[trigger] u.registrations[i]).device_library_id,
    ) && u.has_pass(u.registrations[i].pass_serial_number) by {
        assert(t.has_pass(t.registrations[i].pass_serial_number));
    }
}

/// Removing a pass with its registrations and its loyalty card keeps the

/// tables valid.

pub proof fn lemma_delete_pass_wf(t: Tables, s: Seq<char>)
    requires
        t.wf(),
    ensures
        t.delete_pass(s).wf(),
        forall|r: Seq<char>| t.delete_pass(s).has_pass(r) <==> t.has_pass(r) && r != s,
{
    let u = t.delete_pass(s);
    lemma_filter_distinct(t.passes, pass_key(), other_pass(s));
    lemma_filter_distinct(t.registrations, registration_key(), not_of_pass(s));
    lemma_filter_distinct(t.loyality, loyality_key(), other_loyality(s));
    lemma_filter_rows(t.registrations, not_of_pass(s));
    assert forall|r: Seq<char>| u.has_pass(r) <==> t.has_pass(r) && r != s by {
        lemma_filter_has_key(t.passes, pass_key(), other_pass(s), r);
        if t.has_pass(r) && r != s {
            let i = choose|i: int|
                0 <= i < t.passes.len() && #[trigger] pass_key()(t.passes[i]) == r;
            assert(other_pass(s)(t.passes[i]));
        }
    }
    lemma_references_kept(t, u);
}

/// Adding a loyalty card under a new serial number keeps the tables valid.

pub proof fn lemma_insert_loyality_wf(t: Tables, l: LoyalityRow)
    requires
        t.wf(),
        !t.has_loyality(l.serial_number),
    ensures
        t.insert_loyality(l).wf(),
        t.insert_loyality(l).has_loyality(l.serial_number),
        t.insert_loyality(l).loyality_of(l.serial_number) == l,
{
    let u = t.insert_loyality(l);
    lemma_push_distinct(t.loyality, loyality_key(), l);
    lemma_push_has_key(t.loyality, loyality_key(), l, l.serial_number);
    lemma_row_of_index(u.loyality, loyality_key(), t.loyality.len() as int);
    assert forall|i: int| 0 <= i < u.registrations.len() implies u.has_device(
        (#[trigger] u.registrations[i]).device_library_id,
    ) && u.has_pass(u.registrations[i].pass_serial_number) by {
        assert(t.has_pass(t.registrations[i].pass_serial_number));
    }
}

/// Rewriting passes and loyalty cards under their keys keeps the tables
/// valid.
pub proof fn lemma_rewrite_wf(
    t: Tables,
    on_passes: spec_fn(PassRow) -> PassRow,
    on_loyality: spec_fn(LoyalityRow) -> LoyalityRow,
)
    requires
        t.wf(),
        forall|x: PassRow| #[trigger] pass_key()(on_passes(x)) == pass_key()(x),
        forall|x: LoyalityRow| #[trigger] loyality_key()(on_loyality(x)) == loyality_key()(x),
    ensures
        (Tables {
            passes: t.passes.map_values(on_passes),
            loyality: t.loyality.map_values(on_loyality),
            ..t
        }).wf(),
{
    let u = Tables {
        passes: t.passes.map_values(on_passes),
        loyality: t.loyality.map_values(on_loyality),
        ..t
    };
    lemma_rewrite_keys(t.passes, pass_key(), on_passes);
    lemma_rewrite_keys(t.loyality, loyality_key(), on_loyality);
    assert forall|i: int| 0 <= i < u.registrations.len() implies u.has_device(
        (#[trigger] u.registrations[i]).device_library_id,
    ) && u.has_pass(u.registrations[i].pass_serial_number) by {
        assert(t.has_pass(t.registrations[i].pass_serial_number));
    }
}

/// Adding points keeps the tables valid.

pub proof fn lemma_add_points_wf(t: Tables, s: Seq<char>, points: int, now: int)
    requires
        t.wf(),
    ensures
        t.add_points(s, points, now).wf(),
{
    lemma_rewrite_wf(t, touch_pass(s, now), credit_points(s, points, now));
}

/// Redeeming a card keeps the tables valid.

pub proof fn lemma_redeem_bonus_wf(t: Tables, s: Seq<char>, now: int)
    requires
        t.wf(),
    ensures
        t.redeem_bonus(s, now).wf(),
{
    lemma_rewrite_wf(t, touch_pass(s, now), redeem_card(s, now));
}

/// A deregistration keeps the tables valid.

pub proof fn lemma_deregister_wf(t: Tables, d: Seq<char>, s: Seq<char>)
    requires
        t.wf(),
    ensures
        t.deregister(d, s).wf(),
{
    lemma_delete_registration_wf(t, d, s);
    lemma_delete_device_wf(t.delete_registration(d, s), d);
}

} // verus!
