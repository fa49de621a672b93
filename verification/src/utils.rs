//! Identifiers that are made of the time and of random bits.

use crate::time::Timestamp;
use vstd::prelude::*;

verus! {

/// The time `now` in milliseconds since the epoch, and the epoch itself
/// where `now` lies before it.
pub open spec fn epoch_millis(now: Timestamp) -> int {
    if now < 0 {
        0
    } else {
        now as int
    }
}

/// An identifier of version 7 for the time `now`, as text: see [`is_v7_text`].
pub(crate) fn fresh_identifier(now: Timestamp) -> (id: String)
    ensures
        is_v7_text(id@, epoch_millis(now)),
{
    let millis: u64 = if now < 0 {
        0
    } else {
        now as u64
    };
    let seconds: u64 = millis / 1000;
    let subsec_nanos: u32 = ((millis % 1000) * 1_000_000) as u32;
    assert(subsec_nanos as int / 1_000_000 == millis as int % 1000);
    assert(v7_millis(seconds, subsec_nanos) == millis);
    v7_identifier(seconds, subsec_nanos)
}

/// The sixteen digits, in small letters.
pub open spec fn hex_digits() -> Seq<char> {
    seq!['0', '1', '2', '3', '4', '5', '6', '7', '8', '9', 'a', 'b', 'c', 'd', 'e', 'f']
}

/// Sixteen to the power of `e`.
pub open spec fn sixteen_to(e: nat) -> int
    decreases e,
{
    if e == 0 {
        1
    } else {
        16 * sixteen_to((e - 1) as nat)
    }
}

/// Where in the text the `k`-th of the twelve digits of the time stands:
/// eight digits, a hyphen, four digits.
pub open spec fn time_digit_at(k: int) -> int {
    if k < 8 {
        k
    } else {
        k + 1
    }
}

/// The text of an identifier of version 7 that was made at `millis`
/// milliseconds since the epoch. It has 36 characters: hyphens at the
/// places 8, 13, 18 and 23, and digits to the base of sixteen, in small
/// letters, at all others. The first twelve digits are the low 48 bits of
/// the time, the highest digit first. The next digit is the version, 7,
/// and the digit behind the third hyphen holds the variant in its upper
/// two bits, which are 1 and 0. The other digits are random.
pub open spec fn is_v7_text(id: Seq<char>, millis: int) -> bool {
    &&& id.len() == 36
    &&& forall|i: int|
        0 <= i < 36 ==> if i == 8 || i == 13 || i == 18 || i == 23 {
            #[trigger] id[i] == '-'
        } else {
            hex_digits().contains(id[i])
        }
    &&& forall|k: int|
        0 <= k < 12 ==> #[trigger] id[time_digit_at(k)] == hex_digits()[(millis / sixteen_to(
            (11 - k) as nat,
        )) % 16]
    &&& id[14] == '7'
    &&& id[19] == '8' || id[19] == '9' || id[19] == 'a' || id[19] == 'b'
}

/// The time in milliseconds that an identifier of version 7 is made with,
/// from a time in seconds and nanoseconds: the sum of the two in
/// milliseconds, and `u64::MAX` where the seconds or the sum are beyond it.
pub open spec fn v7_millis(seconds: u64, subsec_nanos: u32) -> int {
    let of_seconds = if seconds * 1000 > u64::MAX {
        u64::MAX as int
    } else {
        seconds * 1000
    };
    if of_seconds + subsec_nanos / 1_000_000 > u64::MAX {
        u64::MAX as int
    } else {
        of_seconds + subsec_nanos / 1_000_000
    }
}

/// Calls `uuid::Timestamp::from_unix` with the given time and no counter,
/// `uuid::Uuid::new_v7` on that timestamp, and `to_string` on the
/// identifier. `new_v7` puts the time in milliseconds, saturating, into the
/// first 48 bits, the version 7 and the variant into their places, and
/// random bits into the rest; `to_string` writes the identifier in small
/// letters with hyphens. The contract claims that form and that time of
/// the text, and nothing of the random digits.
#[verifier::external_body]
fn v7_identifier(seconds: u64, subsec_nanos: u32) -> (id: String)
    ensures
        is_v7_text(id@, v7_millis(seconds, subsec_nanos)),
{
    uuid::Uuid::new_v7(uuid::Timestamp::from_unix(uuid::NoContext, seconds, subsec_nanos)).to_string()
}

} // verus!
