//! Request signing and password hashing as the Qobuz API requires them:
//! lowercase hexadecimal MD5 digests of the password and of the signed
//! request parameters.
use vstd::prelude::*;
use vstd::utf8::encode_utf8;
use crate::text::{decimal, push_char, push_decimal, push_str};

verus! {

/// The MD5 digest of a byte string, as the `md5` crate computes it.
pub uninterp spec fn md5_of(data: Seq<u8>) -> Seq<u8>;

/// `md5::compute`: the 16-byte MD5 digest of `data`. Its value is named by
/// `md5_of`; the crate's `Digest` type is a 16-byte array, which is the one
/// fact stated about it.
#[verifier::external_body]
fn md5_digest(data: &[u8]) -> (d: Vec<u8>)
    ensures
        d@ == md5_of(data@),
        d@.len() == 16,
{
    md5::compute(data).0.to_vec()
}

/// Lowercase hexadecimal digit of a value below 16.
pub open spec fn hex_digit(v: nat) -> char {
    if v == 0 {
        '0'
    } else if v == 1 {
        '1'
    } else if v == 2 {
        '2'
    } else if v == 3 {
        '3'
    } else if v == 4 {
        '4'
    } else if v == 5 {
        '5'
    } else if v == 6 {
        '6'
    } else if v == 7 {
        '7'
    } else if v == 8 {
        '8'
    } else if v == 9 {
        '9'
    } else if v == 10 {
        'a'
    } else if v == 11 {
        'b'
    } else if v == 12 {
        'c'
    } else if v == 13 {
        'd'
    } else if v == 14 {
        'e'
    } else {
        'f'
    }
}

/// Lowercase hexadecimal rendering, two digits per byte (`{:02x}` per byte).
pub open spec fn hex_lower(bytes: Seq<u8>) -> Seq<char>
    decreases bytes.len(),
{
    if bytes.len() == 0 {
        Seq::empty()
    } else {
        hex_lower(bytes.drop_last()) + seq![hex_digit((bytes.last() / 16) as nat), hex_digit((bytes.last() % 16) as nat)]
    }
}

fn hex_digit_char(v: u8) -> (c: char)
    requires
        v < 16,
    ensures
        c == hex_digit(v as nat),
{
    if v == 0 {
        '0'
    } else if v == 1 {
        '1'
    } else if v == 2 {
        '2'
    } else if v == 3 {
        '3'
    } else if v == 4 {
        '4'
    } else if v == 5 {
        '5'
    } else if v == 6 {
        '6'
    } else if v == 7 {
        '7'
    } else if v == 8 {
        '8'
    } else if v == 9 {
        '9'
    } else if v == 10 {
        'a'
    } else if v == 11 {
        'b'
    } else if v == 12 {
        'c'
    } else if v == 13 {
        'd'
    } else if v == 14 {
        'e'
    } else {
        'f'
    }
}

/// Lowercase hexadecimal rendering of a byte string.
pub fn to_hex_lower(bytes: &Vec<u8>) -> (s: String)
    ensures
        s@ == hex_lower(bytes@),
        s@.len() == 2 * bytes@.len(),
{
    let mut s = String::new();
    let mut i: usize = 0;
    while i < bytes.len()
        invariant
            i <= bytes.len(),
            s@ == hex_lower(bytes@.take(i as int)),
            s@.len() == 2 * i,
        decreases bytes.len() - i,
    {
        let b = bytes[i];
        push_char(&mut s, hex_digit_char(b / 16));
        push_char(&mut s, hex_digit_char(b % 16));
        assert(bytes@.take(i + 1).drop_last() =~= bytes@.take(i as int));
        assert(s@ =~= hex_lower(bytes@.take(i + 1)));
        i = i + 1;
    }
    assert(bytes@.take(bytes.len() as int) =~= bytes@);
    s
}

/// The hash sent in place of the password at login: lowercase hexadecimal
/// MD5 of its UTF-8 bytes.
pub open spec fn spec_password_hash(password: Seq<char>) -> Seq<char> {
    hex_lower(md5_of(encode_utf8(password)))
}

/// Hash a password for the login request.
pub fn password_hash(password: &str) -> (h: String)
    ensures
        h@ == spec_password_hash(password@),
        h@.len() == 32,
{
    let d = md5_digest(password.as_bytes());
    to_hex_lower(&d)
}

/// The text signed for a streaming URL request.
pub open spec fn spec_signature_input(format_id: u32, track_id: Seq<char>, timestamp: u64, app_secret: Seq<char>) -> Seq<char> {
    "trackgetFileUrlformat_id"@ + decimal(format_id as nat) + "intentstreamtrack_id"@ + track_id
        + decimal(timestamp as nat) + app_secret
}

/// Build the text signed for a streaming URL request.
pub fn signature_input(format_id: u32, track_id: &str, timestamp: u64, app_secret: &str) -> (s: String)
    ensures
        s@ == spec_signature_input(format_id, track_id@, timestamp, app_secret@),
{
    let mut s = "trackgetFileUrlformat_id".to_owned();
    push_decimal(&mut s, format_id as u64);
    push_str(&mut s, "intentstreamtrack_id");
    push_str(&mut s, track_id);
    push_decimal(&mut s, timestamp);
    push_str(&mut s, app_secret);
    s
}

/// The signature of a streaming URL request: lowercase hexadecimal MD5 of
/// the signed text.
pub open spec fn spec_request_signature(format_id: u32, track_id: Seq<char>, timestamp: u64, app_secret: Seq<char>) -> Seq<char> {
    hex_lower(md5_of(encode_utf8(spec_signature_input(format_id, track_id, timestamp, app_secret))))
}

/// Sign a streaming URL request for `track_id` in `format_id` at the Unix
/// time `timestamp` (seconds).
pub fn request_signature(format_id: u32, track_id: &str, timestamp: u64, app_secret: &str) -> (sig: String)
    ensures
        sig@ == spec_request_signature(format_id, track_id@, timestamp, app_secret@),
        sig@.len() == 32,
{
    let input = signature_input(format_id, track_id, timestamp, app_secret);
    let d = md5_digest(input.as_str().as_bytes());
    to_hex_lower(&d)
}

} // verus!
