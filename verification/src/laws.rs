//! What holds of the service's operations taken together: laws of
//! registration, of deregistration, of authorisation, of pruning and of the
//! watermark, each stated over the model of the store.

use crate::app::{lemma_newest, watermark};
use crate::apple::apn::{dirty_tokens, lemma_dirty_tokens, Attempt};
use crate::db::keyed::{
    lemma_filter_has_key, lemma_filter_nonempty, lemma_filter_single, lemma_row_of_index,
};
use crate::db::tables::{
    device_key, not_of_device, of_device, pass_key, registration_key, this_registration, Tables,
};
use crate::db::validity::{
    lemma_delete_device_wf, lemma_delete_registration_wf, lemma_deregister_wf, lemma_filter_rows,
    lemma_insert_registration_wf, lemma_remove_devices_wf, lemma_upsert_device_wf,
};
use crate::time::later_of;
use vstd::prelude::*;

verus! {

/// A device is registered to some pass exactly if the count of its passes
/// is not zero.
pub proof fn lemma_count_of_passes(t: Tables, d: Seq<char>)
    ensures
        t.count_of_passes(d) > 0 <==> exists|s: Seq<char>| #[trigger] t.is_registered(d, s),
{
    lemma_filter_nonempty(t.registrations, of_device(d));
    if t.count_of_passes(d) > 0 {
        let i = choose|i: int|
            0 <= i < t.registrations.len() && of_device(d)(#[trigger] t.registrations[i]);
        assert(registration_key()(t.registrations[i]) == (d, t.registrations[i].pass_serial_number));
        assert(t.is_registered(d, t.registrations[i].pass_serial_number));
    }
    if exists|s: Seq<char>| #[trigger] t.is_registered(d, s) {
        let s = choose|s: Seq<char>| #[trigger] t.is_registered(d, s);
        let i = choose|i: int|
            0 <= i < t.registrations.len() && #[trigger] registration_key()(t.registrations[i])
                == (d, s);
        assert(of_device(d)(t.registrations[i]));
    }
}

/// What one registration call does to the questions asked of the store.
pub proof fn lemma_register(t: Tables, d: Seq<char>, s: Seq<char>, token: Seq<char>, now: int)
    requires
        t.wf(),
        t.has_pass(s),
    ensures
        t.register(d, s, token, now).wf(),
        t.register(d, s, token, now).passes == t.passes,
        t.register(d, s, token, now).has_device(d),
        t.register(d, s, token, now).device(d).push_token == token,
        forall|e: Seq<char>|
            #![trigger t.register(d, s, token, now).has_device(e)]
            #![trigger t.has_device(e)]
            t.register(d, s, token, now).has_device(e) <==> t.has_device(e) || e == d,
        forall|e: Seq<char>, r: Seq<char>|
            #![trigger t.register(d, s, token, now).is_registered(e, r)]
            #![trigger t.is_registered(e, r)]
            t.register(d, s, token, now).is_registered(e, r) <==> t.is_registered(e, r) || (e == d
                && r == s),
{
    let with_device = t.upsert_device(d, token, now);
    let u = t.register(d, s, token, now);
    lemma_upsert_device_wf(t, d, token, now);
    lemma_insert_registration_wf(with_device, d, s, now);
    assert forall|e: Seq<char>| u.has_device(e) <==> t.has_device(e) || e == d by {
        assert(u.has_device(e) <==> with_device.has_device(e));
    }
    assert forall|e: Seq<char>, r: Seq<char>|
        u.is_registered(e, r) <==> t.is_registered(e, r) || (e == d && r == s) by {
        assert(with_device.is_registered(e, r) <==> t.is_registered(e, r));
        assert(u.is_registered(e, r) <==> with_device.is_registered(e, r) || (e == d && r == s));
    }
}

/// What one deregistration call does to the questions asked of the store.
pub proof fn lemma_deregister(t: Tables, d: Seq<char>, s: Seq<char>)
    requires
        t.wf(),
    ensures
        t.deregister(d, s).wf(),
        t.deregister(d, s).passes == t.passes,
        forall|e: Seq<char>, r: Seq<char>|
            #![trigger t.deregister(d, s).is_registered(e, r)]
            #![trigger t.is_registered(e, r)]
            t.deregister(d, s).is_registered(e, r) <==> t.is_registered(e, r) && !(e == d && r
                == s),
        forall|e: Seq<char>|
            #![trigger t.deregister(d, s).has_device(e)]
            #![trigger t.has_device(e)]
            e != d ==> (t.deregister(d, s).has_device(e) <==> t.has_device(e)),
        t.deregister(d, s).has_device(d) <==> t.has_device(d) && t.deregister(
            d,
            s,
        ).count_of_passes(d) > 0,
{
    let after = t.delete_registration(d, s);
    let u = t.deregister(d, s);
    lemma_deregister_wf(t, d, s);
    lemma_delete_registration_wf(t, d, s);
    lemma_delete_device_wf(after, d);
    lemma_count_of_passes(after, d);
    assert forall|e: Seq<char>, r: Seq<char>|
        after.is_registered(e, r) <==> t.is_registered(e, r) && !(e == d && r == s) by {}
    assert forall|e: Seq<char>| after.has_device(e) <==> t.has_device(e) by {}
    if after.count_of_passes(d) == 0 {
        assert forall|e: Seq<char>| e != d implies (u.has_device(e) <==> t.has_device(e)) by {
            assert(u.has_device(e) <==> after.has_device(e) && e != d);
        }
        assert forall|e: Seq<char>, r: Seq<char>|
            u.is_registered(e, r) <==> after.is_registered(e, r) by {
            lemma_filter_has_key(after.registrations, registration_key(), not_of_device(d), (e, r));
            if after.is_registered(e, r) {
                let i = choose|i: int|
                    0 <= i < after.registrations.len() && #[trigger] registration_key()(
                        after.registrations[i],
                    ) == (e, r);
                assert(e != d);
                assert(not_of_device(d)(after.registrations[i]));
            }
        }
        lemma_count_of_passes(u, d);
    }
}

/// Registration is idempotent. After a device was registered to a pass,
/// it is registered to it; a second registration of the same pair leaves
/// the registrations as they are, with exactly one row for the pair, and
/// the device's push token is the one that came last.
pub proof fn law_registration_is_idempotent(
    t: Tables,
    d: Seq<char>,
    s: Seq<char>,
    first_token: Seq<char>,
    first: int,
    second_token: Seq<char>,
    second: int,
)
    requires
        t.wf(),
        t.has_pass(s),
    ensures
        ({
            let once = t.register(d, s, first_token, first);
            let twice = once.register(d, s, second_token, second);
            &&& once.is_registered(d, s)
            &&& twice.wf()
            &&& twice.registrations == once.registrations
            &&& twice.count_of_registrations(d, s) == 1
            &&& twice.has_device(d)
            &&& twice.device(d).push_token == second_token
        }),
{
    let once = t.register(d, s, first_token, first);
    let twice = once.register(d, s, second_token, second);
    lemma_register(t, d, s, first_token, first);
    lemma_register(once, d, s, second_token, second);
    assert(once.is_registered(d, s));
    assert(once.upsert_device(d, second_token, second).registrations == once.registrations);
    assert(once.upsert_device(d, second_token, second).is_registered(d, s));
    lemma_filter_single(twice.registrations, registration_key(), this_registration(d, s), (d, s));
}

/// Deregistration cascades to the device and to nothing else. After a
/// deregistration the pair is not registered, every other registration
/// and every pass is as before, and the device is there exactly if it was
/// there and is still registered to some pass.
pub proof fn law_deregistration_cascades(t: Tables, d: Seq<char>, s: Seq<char>)
    requires
        t.wf(),
    ensures
        ({
            let u = t.deregister(d, s);
            &&& u.wf()
            &&& u.passes == t.passes
            &&& !u.is_registered(d, s)
            &&& forall|e: Seq<char>, r: Seq<char>|
                !(e == d && r == s) ==> (u.is_registered(e, r) <==> t.is_registered(e, r))
            &&& forall|e: Seq<char>| e != d ==> (u.has_device(e) <==> t.has_device(e))
            &&& u.has_device(d) <==> t.has_device(d) && u.count_of_passes(d) > 0
        }),
{
    lemma_deregister(t, d, s);
}

/// A device that is registered to two passes stays when it is deregistered
/// from the first, and goes when it is then deregistered from the second,
/// unless it was registered to a third.
pub proof fn law_last_deregistration_removes_device(
    t: Tables,
    d: Seq<char>,
    s1: Seq<char>,
    first_token: Seq<char>,
    first: int,
    s2: Seq<char>,
    second_token: Seq<char>,
    second: int,
)
    requires
        t.wf(),
        t.has_pass(s1),
        t.has_pass(s2),
        s1 != s2,
    ensures
        ({
            let both = t.register(d, s1, first_token, first).register(
                d,
                s2,
                second_token,
                second,
            );
            let one = both.deregister(d, s1);
            let none = one.deregister(d, s2);
            &&& one.has_device(d)
            &&& one.is_registered(d, s2)
            &&& !one.is_registered(d, s1)
            &&& (forall|r: Seq<char>| t.is_registered(d, r) ==> r == s1 || r == s2)
                ==> !none.has_device(d) && none.count_of_passes(d) == 0
        }),
{
    let once = t.register(d, s1, first_token, first);
    let both = once.register(d, s2, second_token, second);
    let one = both.deregister(d, s1);
    let none = one.deregister(d, s2);
    lemma_register(t, d, s1, first_token, first);
    lemma_register(once, d, s2, second_token, second);
    lemma_deregister(both, d, s1);
    lemma_deregister(one, d, s2);
    assert(both.is_registered(d, s2));
    assert(one.is_registered(d, s2));
    assert(!one.is_registered(d, s1));
    lemma_count_of_passes(one, d);
    lemma_count_of_passes(none, d);
    if forall|r: Seq<char>| t.is_registered(d, r) ==> r == s1 || r == s2 {
        if none.count_of_passes(d) > 0 {
            let r = choose|r: Seq<char>| #[trigger] none.is_registered(d, r);
            assert(one.is_registered(d, r));
            assert(both.is_registered(d, r));
            assert(once.is_registered(d, r) || r == s2);
            assert(t.is_registered(d, r));
        }
    }
}

/// No device outlives its last registration: where every device is
/// registered to some pass, that is still so after a registration, after
/// a deregistration, and after the devices with given push tokens were
/// removed.
pub proof fn law_no_device_without_registration(
    t: Tables,
    d: Seq<char>,
    s: Seq<char>,
    token: Seq<char>,
    now: int,
    tokens: Seq<Seq<char>>,
)
    requires
        t.wf(),
        t.no_orphan_devices(),
    ensures
        t.has_pass(s) ==> t.register(d, s, token, now).no_orphan_devices(),
        t.deregister(d, s).no_orphan_devices(),
        t.remove_devices_with_push_tokens(tokens).no_orphan_devices(),
{
    assert forall|e: Seq<char>| t.has_device(e) implies exists|r: Seq<char>| #[trigger]
        t.is_registered(e, r) by {
        let i = choose|i: int| 0 <= i < t.devices.len() && #[trigger] device_key()(t.devices[i]) == e;
        assert(t.count_of_passes(t.devices[i].device_library_id) > 0);
        lemma_count_of_passes(t, e);
    }
    if t.has_pass(s) {
        let u = t.register(d, s, token, now);
        lemma_register(t, d, s, token, now);
        assert forall|i: int| 0 <= i < u.devices.len() implies u.count_of_passes(
            (#[trigger] u.devices[i]).device_library_id,
        ) > 0 by {
            let e = u.devices[i].device_library_id;
            assert(device_key()(u.devices[i]) == e);
            assert(u.has_device(e));
            lemma_count_of_passes(u, e);
            if e == d {
                assert(u.is_registered(e, s));
            } else {
                let r = choose|r: Seq<char>| #[trigger] t.is_registered(e, r);
                assert(u.is_registered(e, r));
            }
        }
    }
    {
        let u = t.deregister(d, s);
        lemma_deregister(t, d, s);
        assert forall|i: int| 0 <= i < u.devices.len() implies u.count_of_passes(
            (#[trigger] u.devices[i]).device_library_id,
        ) > 0 by {
            let e = u.devices[i].device_library_id;
            assert(device_key()(u.devices[i]) == e);
            assert(u.has_device(e));
            if e != d {
                lemma_count_of_passes(u, e);
                let r = choose|r: Seq<char>| #[trigger] t.is_registered(e, r);
                assert(u.is_registered(e, r));
            }
        }
    }
    {
        let u = t.remove_devices_with_push_tokens(tokens);
        law_pruning_removes_dirty_devices_only(t, tokens);
        assert forall|i: int| 0 <= i < u.devices.len() implies u.count_of_passes(
            (#[trigger] u.devices[i]).device_library_id,
        ) > 0 by {
            let e = u.devices[i].device_library_id;
            assert(device_key()(u.devices[i]) == e);
            assert(u.has_device(e));
            lemma_count_of_passes(u, e);
            let r = choose|r: Seq<char>| #[trigger] t.is_registered(e, r);
            assert(u.is_registered(e, r));
        }
    }
}

/// Authorisation is by the pass's own secret: a token is accepted for a
/// serial number exactly if a pass with that serial number is there and
/// its secret is that token. So no token is accepted for a serial number
/// that is not there, and none but its own for one that is.
pub proof fn law_authorisation_is_by_the_pass_secret(t: Tables, s: Seq<char>, token: Seq<char>)
    requires
        t.wf(),
    ensures
        t.token_matches(s, token) <==> t.has_pass(s) && t.pass(s).auth_token == token,
        !t.has_pass(s) ==> !t.token_matches(s, token),
        t.has_pass(s) && t.pass(s).auth_token != token ==> !t.token_matches(s, token),
{
    if t.token_matches(s, token) {
        let i = choose|i: int|
            0 <= i < t.passes.len() && (#[trigger] t.passes[i]).serial_number == s
                && t.passes[i].auth_token == token;
        assert(pass_key()(t.passes[i]) == s);
        lemma_row_of_index(t.passes, pass_key(), i);
    }
    if t.has_pass(s) && t.pass(s).auth_token == token {
        let i = choose|i: int| 0 <= i < t.passes.len() && #[trigger] pass_key()(t.passes[i]) == s;
        lemma_row_of_index(t.passes, pass_key(), i);
        assert(t.passes[i].serial_number == s && t.passes[i].auth_token == token);
    }
}

/// Pruning removes the devices whose push token was found invalid, with
/// their registrations, and nothing else: every other device is there as
/// it was, registered to what it was registered to, and no pass changes.
pub proof fn law_pruning_removes_dirty_devices_only(t: Tables, tokens: Seq<Seq<char>>)
    requires
        t.wf(),
    ensures
        ({
            let u = t.remove_devices_with_push_tokens(tokens);
            &&& u.wf()
            &&& u.passes == t.passes
            &&& forall|e: Seq<char>|
                #![trigger u.has_device(e)]
                #![trigger t.has_device(e)]
                u.has_device(e) <==> t.has_device(e) && !tokens.contains(t.device(e).push_token)
            &&& forall|e: Seq<char>| #[trigger] u.has_device(e) ==> u.device(e) == t.device(e)
            &&& forall|e: Seq<char>, r: Seq<char>|
                #![trigger u.is_registered(e, r)]
                #![trigger t.is_registered(e, r)]
                u.is_registered(e, r) <==> t.is_registered(e, r) && u.has_device(e)
        }),
{
    let u = t.remove_devices_with_push_tokens(tokens);
    let q = t.device_token_not_in(tokens);
    lemma_remove_devices_wf(t, tokens);
    assert forall|e: Seq<char>, r: Seq<char>|
        u.is_registered(e, r) <==> t.is_registered(e, r) && u.has_device(e) by {
        lemma_filter_has_key(t.registrations, registration_key(), q, (e, r));
        if t.is_registered(e, r) {
            let i = choose|i: int|
                0 <= i < t.registrations.len() && #[trigger] registration_key()(
                    t.registrations[i],
                ) == (e, r);
            assert(t.has_device(t.registrations[i].device_library_id));
            assert(q(t.registrations[i]) <==> u.has_device(e));
        }
        if u.is_registered(e, r) {
            let i = choose|i: int|
                0 <= i < t.registrations.len() && #[trigger] registration_key()(
                    t.registrations[i],
                ) == (e, r) && q(t.registrations[i]);
            assert(t.has_device(t.registrations[i].device_library_id));
        }
    }
}

/// Settling a round of push attempts removes a device exactly if an attempt
/// to its push token showed the token to be invalid. Every other device is
/// there as it was, registered to what it was registered to.
pub proof fn law_dirty_attempts_remove_their_devices(t: Tables, round: Seq<Attempt>)
    requires
        t.wf(),
    ensures
        ({
            let u = t.remove_devices_with_push_tokens(dirty_tokens(round));
            &&& u.wf()
            &&& forall|e: Seq<char>|
                #![trigger u.has_device(e)]
                #![trigger t.has_device(e)]
                u.has_device(e) <==> t.has_device(e) && !(exists|i: int|
                    0 <= i < round.len() && (#[trigger] round[i]).push_token == t.device(
                        e,
                    ).push_token && round[i].outcome.is_dirty())
            &&& forall|e: Seq<char>| #[trigger] u.has_device(e) ==> u.device(e) == t.device(e)
            &&& forall|e: Seq<char>, r: Seq<char>|
                #![trigger u.is_registered(e, r)]
                #![trigger t.is_registered(e, r)]
                u.is_registered(e, r) <==> t.is_registered(e, r) && u.has_device(e)
        }),
{
    let u = t.remove_devices_with_push_tokens(dirty_tokens(round));
    law_pruning_removes_dirty_devices_only(t, dirty_tokens(round));
    assert forall|e: Seq<char>|
        u.has_device(e) <==> t.has_device(e) && !(exists|i: int|
            0 <= i < round.len() && (#[trigger] round[i]).push_token == t.device(e).push_token
                && round[i].outcome.is_dirty()) by {
        lemma_dirty_tokens(round, t.device(e).push_token);
    }
}

/// The watermark that goes out with an answer is not older than the last
/// change of any pass in the answer.
pub proof fn law_watermark_covers_the_answer(
    t: Tables,
    pass_type_id: Seq<char>,
    d: Seq<char>,
    since: Option<int>,
    now: int,
)
    ensures
        ({
            let answer = t.passes_changed_since(pass_type_id, d, since);
            forall|i: int|
                0 <= i < answer.len() ==> (#[trigger] answer[i]).last_updated_at <= watermark(
                    answer,
                    now,
                )
        }),
{
    let answer = t.passes_changed_since(pass_type_id, d, since);
    if answer.len() > 0 {
        lemma_newest(answer);
    }
}

/// The watermark does not go back. Where a device asks again with a
/// watermark that it was given, or a later time, the watermark of the
/// second answer is not older than that of the first, whatever happened to
/// the store in between, provided that the second answer holds a pass or
/// that the clock does not read earlier than the first watermark.
pub proof fn law_watermark_does_not_go_back(
    before: Tables,
    after: Tables,
    pass_type_id: Seq<char>,
    d: Seq<char>,
    first_since: Option<int>,
    first_now: int,
    second_since: int,
    second_now: int,
)
    requires
        second_since >= watermark(
            before.passes_changed_since(pass_type_id, d, first_since),
            first_now,
        ),
        after.passes_changed_since(pass_type_id, d, Some(second_since)).len() > 0 || second_now
            >= watermark(before.passes_changed_since(pass_type_id, d, first_since), first_now),
    ensures
        watermark(after.passes_changed_since(pass_type_id, d, Some(second_since)), second_now)
            >= watermark(before.passes_changed_since(pass_type_id, d, first_since), first_now),
        watermark(after.passes_changed_since(pass_type_id, d, Some(second_since)), second_now)
            >= second_since || after.passes_changed_since(
            pass_type_id,
            d,
            Some(second_since),
        ).len() == 0,
{
    let answer = after.passes_changed_since(pass_type_id, d, Some(second_since));
    if answer.len() > 0 {
        lemma_newest(answer);
        lemma_filter_rows(after.passes, after.changed_since(pass_type_id, d, Some(second_since)));
        assert(after.changed_since(pass_type_id, d, Some(second_since))(answer[0]));
        assert(answer[0].last_updated_at >= second_since);
    }
}

/// The time of a pass's last change only moves forward: after points were
/// added to a card, and after a card was redeemed, no pass is stamped
/// earlier than before, and the pass of the card is stamped with the later
/// of its old stamp and the time of the change.
pub proof fn law_pass_stamps_move_forward(t: Tables, s: Seq<char>, points: int, now: int)
    requires
        t.wf(),
    ensures
        t.add_points(s, points, now).passes.len() == t.passes.len(),
        t.redeem_bonus(s, now).passes == t.add_points(s, points, now).passes,
        forall|i: int|
            0 <= i < t.passes.len() ==> (#[trigger] t.add_points(
                s,
                points,
                now,
            ).passes[i]).last_updated_at >= t.passes[i].last_updated_at,
        forall|r: Seq<char>| t.add_points(s, points, now).has_pass(r) <==> t.has_pass(r),
        t.has_pass(s) ==> t.add_points(s, points, now).pass(s).last_updated_at == later_of(
            t.pass(s).last_updated_at,
            now,
        ),
{
    let f = crate::db::tables::touch_pass(s, now);
    crate::db::keyed::lemma_rewrite_keys(t.passes, pass_key(), f);
    if t.has_pass(s) {
        crate::db::keyed::lemma_rewrite_row_of(t.passes, pass_key(), f, s);
    }
}

} // verus!
