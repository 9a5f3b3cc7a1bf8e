//! Header construction: converting a credential into the exact header list a
//! request must carry, including the base64 encoding that HTTP Basic
//! authentication requires.

use vstd::prelude::*;
use vstd::string::*;

use crate::Credentials;

verus! {

/// The base64 alphabet, indexed by the six-bit value it encodes.
pub const BASE64_CHARS: [char; 64] = [
    'A', 'B', 'C', 'D', 'E', 'F', 'G', 'H', 'I', 'J', 'K', 'L', 'M', 'N', 'O', 'P', 'Q', 'R', 'S',
    'T', 'U', 'V', 'W', 'X', 'Y', 'Z', 'a', 'b', 'c', 'd', 'e', 'f', 'g', 'h', 'i', 'j', 'k', 'l',
    'm', 'n', 'o', 'p', 'q', 'r', 's', 't', 'u', 'v', 'w', 'x', 'y', 'z', '0', '1', '2', '3', '4',
    '5', '6', '7', '8', '9', '+', '/',
];

/// Standard base64 with `=` padding, defined over whole three-byte groups
/// from the front of the input.
pub open spec fn spec_base64(bytes: Seq<u8>) -> Seq<char>
    decreases bytes.len(),
{
    if bytes.len() == 0 {
        Seq::empty()
    } else if bytes.len() == 1 {
        let b0 = bytes[0];
        seq![
            BASE64_CHARS@[(b0 >> 2) as int],
            BASE64_CHARS@[(((b0 & 0x03) as u8) << 4) as int],
            '=',
            '=',
        ]
    } else if bytes.len() == 2 {
        let b0 = bytes[0];
        let b1 = bytes[1];
        seq![
            BASE64_CHARS@[(b0 >> 2) as int],
            BASE64_CHARS@[((((b0 & 0x03) as u8) << 4) | (b1 >> 4)) as int],
            BASE64_CHARS@[((((b1 & 0x0f) as u8) << 2)) as int],
            '=',
        ]
    } else {
        let b0 = bytes[0];
        let b1 = bytes[1];
        let b2 = bytes[2];
        seq![
            BASE64_CHARS@[(b0 >> 2) as int],
            BASE64_CHARS@[((((b0 & 0x03) as u8) << 4) | (b1 >> 4)) as int],
            BASE64_CHARS@[((((b1 & 0x0f) as u8) << 2) | (b2 >> 6)) as int],
            BASE64_CHARS@[(b2 & 0x3f) as int],
        ] + spec_base64(bytes.skip(3))
    }
}

/// Encodes `bytes` as standard padded base64.
pub fn base64_encode(bytes: &[u8]) -> (r: String)
    ensures
        r@ == spec_base64(bytes@),
{
    let len = bytes.len();
    let mut out = String::new();
    let mut i: usize = 0;
    proof {
        assert(bytes@.skip(0) == bytes@);
    }
    while len - i >= 3
        invariant
            i <= len,
            len == bytes@.len(),
            spec_base64(bytes@) == out@ + spec_base64(bytes@.skip(i as int)),
        decreases len - i,
    {
        let b0 = bytes[i];
        let b1 = bytes[i + 1];
        let b2 = bytes[i + 2];
        let s0 = b0 >> 2;
        let s1 = ((b0 & 0x03) << 4) | (b1 >> 4);
        let s2 = ((b1 & 0x0f) << 2) | (b2 >> 6);
        let s3 = b2 & 0x3f;
        proof {
            assert(b0 >> 2 < 64 && ((b0 & 0x03) << 4) | (b1 >> 4) < 64 && ((b1 & 0x0f) << 2) | (
            b2 >> 6) < 64 && b2 & 0x3f < 64) by (bit_vector);
            assert(((b0 & 0x03) as u8) << 4 == (b0 & 0x03) << 4) by (bit_vector);
            assert(((b1 & 0x0f) as u8) << 2 == (b1 & 0x0f) << 2) by (bit_vector);
        }
        push_char(&mut out, BASE64_CHARS[s0 as usize]);
        push_char(&mut out, BASE64_CHARS[s1 as usize]);
        push_char(&mut out, BASE64_CHARS[s2 as usize]);
        push_char(&mut out, BASE64_CHARS[s3 as usize]);
        proof {
            let tail = bytes@.skip(i as int);
            assert(tail[0] == b0 && tail[1] == b1 && tail[2] == b2);
            assert(tail.skip(3) == bytes@.skip(i + 3));
        }
        i = i + 3;
    }
    if len - i == 1 {
        let b0 = bytes[i];
        let s0 = b0 >> 2;
        let s1 = (b0 & 0x03) << 4;
        proof {
            assert(b0 >> 2 < 64 && (b0 & 0x03) << 4 < 64) by (bit_vector);
            assert(((b0 & 0x03) as u8) << 4 == (b0 & 0x03) << 4) by (bit_vector);
            assert(bytes@.skip(i as int)[0] == b0);
        }
        push_char(&mut out, BASE64_CHARS[s0 as usize]);
        push_char(&mut out, BASE64_CHARS[s1 as usize]);
        push_char(&mut out, '=');
        push_char(&mut out, '=');
    } else if len - i == 2 {
        let b0 = bytes[i];
        let b1 = bytes[i + 1];
        let s0 = b0 >> 2;
        let s1 = ((b0 & 0x03) << 4) | (b1 >> 4);
        let s2 = (b1 & 0x0f) << 2;
        proof {
            assert(b0 >> 2 < 64 && ((b0 & 0x03) << 4) | (b1 >> 4) < 64 && (b1 & 0x0f) << 2
                < 64) by (bit_vector);
            assert(((b0 & 0x03) as u8) << 4 == (b0 & 0x03) << 4) by (bit_vector);
            assert(((b1 & 0x0f) as u8) << 2 == (b1 & 0x0f) << 2) by (bit_vector);
            assert(bytes@.skip(i as int)[0] == b0 && bytes@.skip(i as int)[1] == b1);
        }
        push_char(&mut out, BASE64_CHARS[s0 as usize]);
        push_char(&mut out, BASE64_CHARS[s1 as usize]);
        push_char(&mut out, BASE64_CHARS[s2 as usize]);
        push_char(&mut out, '=');
    }
    out
}

/// Relies on `String::push`: appends exactly the one character.
#[verifier::external_body]
fn push_char(s: &mut String, c: char)
    ensures
        final(s)@ == old(s)@.push(c),
{
    s.push(c);
}

/// The value of the HTTP Basic authorization header for a user and password:
/// `Basic ` followed by the base64 encoding of the UTF-8 bytes of
/// `user:password`.
pub open spec fn spec_basic_value(user: Seq<char>, pass: Seq<char>) -> Seq<char> {
    "Basic "@ + spec_base64(vstd::utf8::encode_utf8(user + ":"@ + pass))
}

/// The exact header list a request built from credentials `c` carries:
/// one authentication header per the scheme, then the JSON content type,
/// and nothing else.
pub open spec fn spec_headers(c: Credentials) -> Seq<(Seq<char>, Seq<char>)> {
    match c {
        Credentials::Basic(user, pass) => seq![
            ("Authorization"@, spec_basic_value(user@, pass@)),
            ("Content-Type"@, "application/json"@),
        ],
        Credentials::Cookie(value) => seq![
            ("Cookie"@, "JSESSIONID="@ + value@),
            ("Content-Type"@, "application/json"@),
        ],
    }
}

/// Builds the headers for one request: exactly the pairs of `spec_headers`,
/// in order.
pub fn header_list(c: &Credentials) -> (r: Vec<(String, String)>)
    ensures
        r@.len() == spec_headers(*c).len(),
        forall|i: int|
            0 <= i < r@.len() ==> r@[i].0@ == spec_headers(*c)[i].0 && r@[i].1@ == spec_headers(
                *c,
            )[i].1,
{
    let mut r: Vec<(String, String)> = Vec::new();
    match c {
        Credentials::Basic(user, pass) => {
            let mut joined = user.clone();
            joined.append(":");
            joined.append(pass.as_str());
            let encoded = base64_encode(joined.as_str().as_bytes());
            let value = String::from_str("Basic ").concat(encoded.as_str());
            proof {
                assert(joined@ == user@ + ":"@ + pass@);
                assert(value@ == spec_basic_value(user@, pass@));
            }
            r.push((String::from_str("Authorization"), value));
        },
        Credentials::Cookie(cookie) => {
            let value = String::from_str("JSESSIONID=").concat(cookie.as_str());
            r.push((String::from_str("Cookie"), value));
        },
    }
    r.push((String::from_str("Content-Type"), String::from_str("application/json")));
    r
}

} // verus!
