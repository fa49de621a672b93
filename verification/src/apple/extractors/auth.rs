//! The secret of a pass, as a device presents it: in the `authorization`
//! header, after the scheme `ApplePass`.

use crate::error::Error;
use vstd::prelude::*;
use vstd::string::StringSliceAdditionalSpecFns;
use vstd::utf8::{
    decode_utf8, encode_utf8, encode_utf8_decode_utf8, encode_utf8_valid_utf8, is_ascii_chars,
    is_ascii_chars_encode_utf8, is_char_boundary, length_of_first_scalar, pop_first_scalar,
    valid_utf8,
};

verus! {

/// The name of the scheme.
pub const SCHEME: &'static str = "ApplePass";

/// The secret that a request presented.
#[derive(Debug, PartialEq, Eq)]
pub struct Auth(pub String);

/// The text of an `authorization` header of the scheme `ApplePass`, scheme
/// included.
#[derive(Clone, PartialEq, Debug)]
pub struct ApplePass(pub String);

/// Whether a character is whitespace: whether it has the property
/// White_Space of the Unicode character database.
pub open spec fn is_white_space(c: char) -> bool {
    let n = c as u32;
    ||| 0x09 <= n <= 0x0d
    ||| n == 0x20
    ||| n == 0x85
    ||| n == 0xa0
    ||| n == 0x1680
    ||| 0x2000 <= n <= 0x200a
    ||| n == 0x2028
    ||| n == 0x2029
    ||| n == 0x202f
    ||| n == 0x205f
    ||| n == 0x3000
}

/// The number of whitespace characters with which a text starts.
pub open spec fn leading_white_space(text: Seq<char>) -> nat
    decreases text.len(),
{
    if text.len() > 0 && is_white_space(text[0]) {
        1 + leading_white_space(text.drop_first())
    } else {
        0
    }
}

/// A text without the whitespace with which it starts.
pub open spec fn trim_start_of(text: Seq<char>) -> Seq<char> {
    text.skip(leading_white_space(text) as int)
}

/// Calls `str::trim_start`, which returns the part of the text that is left
/// when the whitespace at its start is taken away, whitespace being what
/// has the Unicode property White_Space. The contract claims that, with the
/// characters of that property written out.
#[verifier::external_body]
fn trimmed_start(text: &str) -> (t: &str)
    ensures
        t@ == trim_start_of(text@),
{
    text.trim_start()
}

/// An ASCII capital as its small letter, every other byte as it is.
pub open spec fn lowered(b: u8) -> u8 {
    if 65 <= b && b <= 90 {
        (b + 32) as u8
    } else {
        b
    }
}

/// The scheme's name in small letters.
pub open spec fn scheme() -> Seq<u8> {
    seq![97u8, 112u8, 112u8, 108u8, 101u8, 112u8, 97u8, 115u8, 115u8]
}

/// The header starts with the scheme's name, in capitals or small letters,
/// and a space.
pub open spec fn names_scheme(value: Seq<u8>) -> bool {
    &&& value.len() > 9
    &&& value[9] == 32
    &&& forall|i: int| 0 <= i < 9 ==> lowered(#[trigger] value[i]) == scheme()[i]
}

/// Behind bytes of ASCII a text can be parted.
proof fn lemma_boundary_after_ascii(bytes: Seq<u8>, n: int)
    requires
        valid_utf8(bytes),
        0 <= n <= bytes.len(),
        forall|i: int| 0 <= i < n ==> bytes[i] < 128,
    ensures
        is_char_boundary(bytes, n),
    decreases n,
{
    if n > 0 {
        let rest = pop_first_scalar(bytes);
        assert(bytes[0] < 128);
        assert(length_of_first_scalar(bytes) == 1);
        assert(valid_utf8(rest));
        assert forall|i: int| 0 <= i < n - 1 implies rest[i] < 128 by {
            assert(rest[i] == bytes[i + 1]);
        }
        lemma_boundary_after_ascii(rest, n - 1);
    }
}

/// A header of the scheme can be parted behind the scheme's name and the
/// space.
pub proof fn lemma_scheme_can_be_parted(header: Seq<char>)
    requires
        names_scheme(encode_utf8(header)),
    ensures
        is_char_boundary(encode_utf8(header), 10),
{
    let bytes = encode_utf8(header);
    encode_utf8_valid_utf8(header);
    assert forall|i: int| 0 <= i < 10 implies bytes[i] < 128 by {
        if i < 9 {
            assert(lowered(bytes[i]) == scheme()[i]);
        }
    }
    lemma_boundary_after_ascii(bytes, 10);
}

/// What stands in a header behind the scheme's name and the space.
pub open spec fn after_scheme(header: Seq<char>) -> Seq<char> {
    decode_utf8(encode_utf8(header).subrange(10, encode_utf8(header).len() as int))
}

/// In a header of ASCII the bytes are the characters: it is of the scheme
/// exactly if it starts with the scheme's name, in capitals or small
/// letters, and a space, and what stands behind them are the characters
/// from the eleventh on.
pub proof fn lemma_ascii_header(header: Seq<char>)
    requires
        is_ascii_chars(header),
    ensures
        names_scheme(encode_utf8(header)) <==> header.len() > 9 && header[9] == ' ' && forall|
            i: int,
        |
            0 <= i < 9 ==> lowered(#[trigger] header[i] as u8) == scheme()[i],
        header.len() >= 10 ==> after_scheme(header) == header.skip(10),
{
    let bytes = encode_utf8(header);
    is_ascii_chars_encode_utf8(header);
    if header.len() > 9 {
        assert(bytes[9] == header[9] as u8);
        assert(header[9] == ' ' <==> bytes[9] == 32);
        assert forall|i: int| 0 <= i < 9 implies (lowered(#[trigger] bytes[i]) == scheme()[i]
            <==> lowered(header[i] as u8) == scheme()[i]) by {
            assert(bytes[i] == header[i] as u8);
        }
        if names_scheme(bytes) {
            assert forall|i: int| 0 <= i < 9 implies lowered(#[trigger] header[i] as u8)
                == scheme()[i] by {
                assert(lowered(bytes[i]) == scheme()[i]);
            }
        }
        if forall|i: int| 0 <= i < 9 ==> lowered(#[trigger] header[i] as u8) == scheme()[i] {
            assert forall|i: int| 0 <= i < 9 implies lowered(#[trigger] bytes[i])
                == scheme()[i] by {
                assert(lowered(header[i] as u8) == scheme()[i]);
            }
        }
    }
    if header.len() >= 10 {
        let rest = header.skip(10);
        assert(is_ascii_chars(rest)) by {
            assert forall|i: int| 0 <= i < rest.len() implies '\0' <= #[trigger] rest[i]
                <= '\u{7f}' by {
                assert(rest[i] == header[i + 10]);
            }
        }
        is_ascii_chars_encode_utf8(rest);
        assert(encode_utf8(rest) =~= bytes.subrange(10, bytes.len() as int)) by {
            assert forall|i: int| 0 <= i < rest.len() implies encode_utf8(rest)[i] == bytes[i
                + 10] by {
                assert(encode_utf8(rest)[i] == rest[i] as u8);
                assert(bytes[i + 10] == header[i + 10] as u8);
            }
        }
        encode_utf8_decode_utf8(rest);
    }
}

/// The error is the refusal of a request without an `authorization`
/// header.
pub open spec fn missing_header(e: Error) -> bool {
    e matches Error::AxumTypedHeaderRejection(text) && text@
        == "Header of type `authorization` was missing"@
}

/// The error is the refusal of a request whose `authorization` header is
/// not of the scheme.
pub open spec fn invalid_header(e: Error) -> bool {
    e matches Error::AxumTypedHeaderRejection(text) && text@
        == "invalid HTTP header (authorization)"@
}

fn to_lower(b: u8) -> (l: u8)
    ensures
        l == lowered(b),
{
    if 65 <= b && b <= 90 {
        b + 32
    } else {
        b
    }
}

/// Whether a header is of the scheme.
fn of_scheme(value: &str) -> (b: bool)
    ensures
        b == names_scheme(value.spec_bytes()),
{
    let bytes = value.as_bytes();
    if bytes.len() <= 9 || bytes[9] != 32 {
        return false;
    }
    let name: [u8; 9] = [97, 112, 112, 108, 101, 112, 97, 115, 115];
    assert(name@ =~= scheme());
    let mut i: usize = 0;
    while i < 9
        invariant
            i <= 9,
            bytes@.len() > 9,
            bytes@ == value.spec_bytes(),
            name@ == scheme(),
            forall|j: int| 0 <= j < i ==> lowered(#[trigger] bytes@[j]) == scheme()[j],
        decreases 9 - i,
    {
        if to_lower(bytes[i]) != name[i] {
            return false;
        }
        i += 1;
    }
    true
}

impl ApplePass {
    /// The secret: what stands behind the scheme's name and the space,
    /// without the whitespace at its start.
    pub fn token(&self) -> (t: &str)
        requires
            is_char_boundary(encode_utf8(self.0@), 10),
        ensures
            t@ == trim_start_of(after_scheme(self.0@)),
    {
        let header = self.0.as_str();
        let (_, rest) = header.split_at(10);
        proof {
            encode_utf8_decode_utf8(rest@);
        }
        trimmed_start(rest)
    }

    /// The header's text as credentials of the scheme.
    pub fn decode(value: &str) -> (r: Option<Self>)
        requires
            names_scheme(value.spec_bytes()),
        ensures
            r is Some,
            r->Some_0.0@ == value@,
            is_char_boundary(encode_utf8(r->Some_0.0@), 10),
    {
        proof {
            lemma_scheme_can_be_parted(value@);
        }
        Some(ApplePass(value.to_owned()))
    }
}

impl Auth {
    /// The secret that a request presents in its `authorization` header.
    /// Refused where the header is not there, and where it is not of the
    /// scheme.
    pub fn from_header(value: Option<&str>) -> (r: Result<Auth, Error>)
        ensures
            match r {
                Ok(auth) => value is Some && names_scheme(value->Some_0.spec_bytes()) && auth.0@
                    == trim_start_of(after_scheme(value->Some_0@)),
                Err(e) => if value is None {
                    missing_header(e)
                } else {
                    !names_scheme(value->Some_0.spec_bytes()) && invalid_header(e)
                },
            },
    {
        match value {
            None => Err(
                Error::AxumTypedHeaderRejection(
                    "Header of type `authorization` was missing".to_owned(),
                ),
            ),
            Some(text) => {
                if !of_scheme(text) {
                    return Err(
                        Error::AxumTypedHeaderRejection(
                            "invalid HTTP header (authorization)".to_owned(),
                        ),
                    );
                }
                match ApplePass::decode(text) {
                    Some(credentials) => Ok(Auth(credentials.token().to_owned())),
                    None => Err(
                        Error::AxumTypedHeaderRejection(
                            "invalid HTTP header (authorization)".to_owned(),
                        ),
                    ),
                }
            },
        }
    }
}

} // verus!
