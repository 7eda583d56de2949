//! Signed links: a code over a file's identifier and the time of signing lets
//! its bearer read that file for a limited time.

use crate::clock::current_seconds;
use crate::hex_text::decode;
use crate::hex_text::encode;
use crate::hex_text::hex_decoded;
use crate::hex_text::hex_encoded;
use crate::hex_text::is_hex_text;
use crate::hex_text::lemma_hex_round_trip;
use crate::mac::code;
use crate::mac::hmac_sha256;
use crate::mac::matches_code;
use crate::mac::CODE_LEN;
use vstd::prelude::*;
use vstd::string::StringSliceAdditionalSpecFns;
use vstd::utf8::encode_utf8;

verus! {

/// How far ahead of the verifier's clock a signing time may lie, in seconds.
pub const CLOCK_SKEW_SECONDS: u64 = 60;

/// The eight bytes of a time stamp, the most significant first.
pub open spec fn timestamp_bytes(timestamp: u64) -> Seq<u8> {
    seq![
        (timestamp / 0x100_0000_0000_0000) as u8,
        (timestamp / 0x1_0000_0000_0000 % 0x100) as u8,
        (timestamp / 0x100_0000_0000 % 0x100) as u8,
        (timestamp / 0x1_0000_0000 % 0x100) as u8,
        (timestamp / 0x100_0000 % 0x100) as u8,
        (timestamp / 0x1_0000 % 0x100) as u8,
        (timestamp / 0x100 % 0x100) as u8,
        (timestamp % 0x100) as u8,
    ]
}

/// What is signed: the time stamp's bytes, then the file identifier in UTF-8.
pub open spec fn signing_message(timestamp: u64, file_id: Seq<char>) -> Seq<u8> {
    timestamp_bytes(timestamp) + encode_utf8(file_id)
}

/// The code that signs `file_id` at `timestamp` under `secret_key`.
pub open spec fn signing_code(file_id: Seq<char>, secret_key: Seq<char>, timestamp: u64) -> Seq<
    u8,
> {
    hmac_sha256(encode_utf8(secret_key), signing_message(timestamp, file_id))
}

/// The signature as it travels: the signing code in lower-case hexadecimal.
pub open spec fn signature_text(file_id: Seq<char>, secret_key: Seq<char>, timestamp: u64) -> Seq<
    char,
> {
    hex_encoded(signing_code(file_id, secret_key, timestamp))
}

/// A signing time is fresh at `now` when it is not older than
/// `expiry_seconds` and not more than a minute ahead.
pub open spec fn signature_fresh(timestamp: u64, expiry_seconds: u64, now: u64) -> bool {
    &&& now <= timestamp + expiry_seconds
    &&& timestamp <= now + CLOCK_SKEW_SECONDS
}

/// A signature is authentic when it is hexadecimal text for the code that
/// signs `file_id` at `timestamp` under `secret_key`.
pub open spec fn signature_authentic(
    file_id: Seq<char>,
    secret_key: Seq<char>,
    signature: Seq<char>,
    timestamp: u64,
) -> bool {
    hex_decoded(encode_utf8(signature)) == Some(signing_code(file_id, secret_key, timestamp))
}

/// A signature opens the file at `now` when it is fresh and authentic.
pub open spec fn signature_valid(
    file_id: Seq<char>,
    secret_key: Seq<char>,
    signature: Seq<char>,
    timestamp: u64,
    expiry_seconds: u64,
    now: u64,
) -> bool {
    &&& signature_fresh(timestamp, expiry_seconds, now)
    &&& signature_authentic(file_id, secret_key, signature, timestamp)
}

/// Writes out the bytes that are signed.
fn build_message(timestamp: u64, file_id: &str) -> (message: Vec<u8>)
    ensures
        message@ == signing_message(timestamp, file_id@),
{
    let mut message: Vec<u8> = Vec::new();
    message.push((timestamp / 0x100_0000_0000_0000) as u8);
    message.push((timestamp / 0x1_0000_0000_0000 % 0x100) as u8);
    message.push((timestamp / 0x100_0000_0000 % 0x100) as u8);
    message.push((timestamp / 0x1_0000_0000 % 0x100) as u8);
    message.push((timestamp / 0x100_0000 % 0x100) as u8);
    message.push((timestamp / 0x1_0000 % 0x100) as u8);
    message.push((timestamp / 0x100 % 0x100) as u8);
    message.push((timestamp % 0x100) as u8);
    assert(message@ =~= timestamp_bytes(timestamp));
    let id_bytes = file_id.as_bytes();
    let mut i: usize = 0;
    while i < id_bytes.len()
        invariant
            i <= id_bytes@.len(),
            id_bytes@ == encode_utf8(file_id@),
            message@ == timestamp_bytes(timestamp) + id_bytes@.take(i as int),
        decreases id_bytes@.len() - i,
    {
        message.push(id_bytes[i]);
        i = i + 1;
        assert(message@ =~= timestamp_bytes(timestamp) + id_bytes@.take(i as int));
    }
    assert(id_bytes@.take(i as int) =~= id_bytes@);
    message
}

/// Signs `file_id` at `timestamp` under `secret_key`. The signature verifies
/// under the same key, identifier and time stamp for as long as it is fresh.
pub fn generate_signature_at(file_id: &str, secret_key: &str, timestamp: u64) -> (signature: String)
    ensures
        signature@ == signature_text(file_id@, secret_key@, timestamp),
        signature@.len() == 2 * CODE_LEN,
        forall|expiry_seconds: u64, now: u64|
            signature_fresh(timestamp, expiry_seconds, now) ==> #[trigger] signature_valid(
                file_id@,
                secret_key@,
                signature@,
                timestamp,
                expiry_seconds,
                now,
            ),
{
    let message = build_message(timestamp, file_id);
    let bytes = code(secret_key.as_bytes(), message.as_slice()).unwrap();
    proof {
        lemma_hex_round_trip(bytes@);
    }
    encode(bytes.as_slice())
}

/// Signs `file_id` under `secret_key` at the present time, and returns the
/// signature with the time stamp that it covers. A clock set before the Unix
/// epoch reads as the epoch itself.
pub fn generate_signature(file_id: &str, secret_key: &str) -> (signed: (String, u64))
    ensures
        signed.0@ == signature_text(file_id@, secret_key@, signed.1),
        signed.0@.len() == 2 * CODE_LEN,
        forall|expiry_seconds: u64, now: u64|
            signature_fresh(signed.1, expiry_seconds, now) ==> #[trigger] signature_valid(
                file_id@,
                secret_key@,
                signed.0@,
                signed.1,
                expiry_seconds,
                now,
            ),
{
    let timestamp = crate::clock::or_epoch(current_seconds());
    (generate_signature_at(file_id, secret_key, timestamp), timestamp)
}

/// Whether a signing time is fresh at `current_time`.
pub fn is_fresh(timestamp: u64, expiry_seconds: u64, current_time: u64) -> (fresh: bool)
    ensures
        fresh == signature_fresh(timestamp, expiry_seconds, current_time),
{
    let expired = match timestamp.checked_add(expiry_seconds) {
        Some(deadline) => current_time > deadline,
        None => false,
    };
    let ahead = match current_time.checked_add(CLOCK_SKEW_SECONDS) {
        Some(horizon) => timestamp > horizon,
        None => false,
    };
    !expired && !ahead
}

/// Decides at `current_time` whether `signature` opens `file_id`: it must be
/// fresh, and hexadecimal text for the code of the identifier and the time
/// stamp under `secret_key`. Any other input is refused.
pub fn verify_signature_at(
    file_id: &str,
    secret_key: &str,
    signature: &str,
    timestamp: u64,
    expiry_seconds: u64,
    current_time: u64,
) -> (valid: bool)
    ensures
        valid == signature_valid(
            file_id@,
            secret_key@,
            signature@,
            timestamp,
            expiry_seconds,
            current_time,
        ),
        valid ==> encode_utf8(signature@).len() == 2 * CODE_LEN,
{
    if !is_fresh(timestamp, expiry_seconds, current_time) {
        return false;
    }
    let message = build_message(timestamp, file_id);
    let candidate = match decode(signature.as_bytes()) {
        Some(bytes) => bytes,
        None => {
            return false;
        },
    };
    matches_code(secret_key.as_bytes(), message.as_slice(), candidate.as_slice())
}

/// Decides at the present time whether `signature` opens `file_id`: the
/// decision is the one of `verify_signature_at` for what the clock reads. A
/// clock set before the Unix epoch reads as the epoch itself. So a
/// signature that is accepted is fresh at some time and authentic, and one
/// that is valid at every time is accepted.
pub fn verify_signature(
    file_id: &str,
    secret_key: &str,
    signature: &str,
    timestamp: u64,
    expiry_seconds: u64,
) -> (valid: bool)
    ensures
        exists|now: u64|
            valid == #[trigger] signature_valid(
                file_id@,
                secret_key@,
                signature@,
                timestamp,
                expiry_seconds,
                now,
            ),
        valid ==> signature_authentic(file_id@, secret_key@, signature@, timestamp),
        valid ==> encode_utf8(signature@).len() == 2 * CODE_LEN,
{
    let current_time = crate::clock::or_epoch(current_seconds());
    verify_signature_at(file_id, secret_key, signature, timestamp, expiry_seconds, current_time)
}

/// A time stamp can be read back from its eight bytes.
pub open spec fn timestamp_of(bytes: Seq<u8>) -> int {
    bytes[0] * 0x100_0000_0000_0000 + bytes[1] * 0x1_0000_0000_0000 + bytes[2] * 0x100_0000_0000
        + bytes[3] * 0x1_0000_0000 + bytes[4] * 0x100_0000 + bytes[5] * 0x1_0000 + bytes[6] * 0x100
        + bytes[7]
}

/// The bytes of a time stamp determine it.
pub proof fn lemma_timestamp_bytes_read_back(timestamp: u64)
    ensures
        timestamp_bytes(timestamp).len() == 8,
        timestamp_of(timestamp_bytes(timestamp)) == timestamp,
{
    let t = timestamp;
    assert(t == (t / 0x100_0000_0000_0000) * 0x100_0000_0000_0000 + (t / 0x1_0000_0000_0000
        % 0x100) * 0x1_0000_0000_0000 + (t / 0x100_0000_0000 % 0x100) * 0x100_0000_0000 + (t
        / 0x1_0000_0000 % 0x100) * 0x1_0000_0000 + (t / 0x100_0000 % 0x100) * 0x100_0000 + (t
        / 0x1_0000 % 0x100) * 0x1_0000 + (t / 0x100 % 0x100) * 0x100 + t % 0x100)
        by (bit_vector);
    assert(t / 0x100_0000_0000_0000 < 0x100) by (bit_vector);
}

/// A signature made at `timestamp` verifies under the same key and file
/// identifier at any time at which it is fresh.
pub proof fn law_fresh_signature_verifies(
    file_id: Seq<char>,
    secret_key: Seq<char>,
    timestamp: u64,
    expiry_seconds: u64,
    now: u64,
)
    requires
        signature_fresh(timestamp, expiry_seconds, now),
    ensures
        signature_valid(
            file_id,
            secret_key,
            signature_text(file_id, secret_key, timestamp),
            timestamp,
            expiry_seconds,
            now,
        ),
{
    lemma_hex_round_trip(signing_code(file_id, secret_key, timestamp));
}

/// At the moment of signing a signature is fresh, whatever the expiry window.
pub proof fn law_signature_verifies_at_once(
    file_id: Seq<char>,
    secret_key: Seq<char>,
    timestamp: u64,
    expiry_seconds: u64,
)
    ensures
        signature_valid(
            file_id,
            secret_key,
            signature_text(file_id, secret_key, timestamp),
            timestamp,
            expiry_seconds,
            timestamp,
        ),
{
    law_fresh_signature_verifies(file_id, secret_key, timestamp, expiry_seconds, timestamp);
}

/// Once the clock has passed the time stamp by more than the expiry window,
/// no signature is accepted.
pub proof fn law_expired_signature_fails(
    file_id: Seq<char>,
    secret_key: Seq<char>,
    signature: Seq<char>,
    timestamp: u64,
    expiry_seconds: u64,
    now: u64,
)
    requires
        now > timestamp + expiry_seconds,
    ensures
        !signature_valid(file_id, secret_key, signature, timestamp, expiry_seconds, now),
{
}

/// A time stamp more than a minute ahead of the clock is refused.
pub proof fn law_early_signature_fails(
    file_id: Seq<char>,
    secret_key: Seq<char>,
    signature: Seq<char>,
    timestamp: u64,
    expiry_seconds: u64,
    now: u64,
)
    requires
        timestamp > now + CLOCK_SKEW_SECONDS,
    ensures
        !signature_valid(file_id, secret_key, signature, timestamp, expiry_seconds, now),
{
}

/// Two different time stamps never give the same message to sign.
pub proof fn law_timestamp_is_signed(file_id: Seq<char>, first: u64, second: u64)
    requires
        first != second,
    ensures
        signing_message(first, file_id) != signing_message(second, file_id),
{
    lemma_timestamp_bytes_read_back(first);
    lemma_timestamp_bytes_read_back(second);
    if signing_message(first, file_id) == signing_message(second, file_id) {
        let one = signing_message(first, file_id);
        let other = signing_message(second, file_id);
        assert(one.subrange(0, 8) =~= timestamp_bytes(first));
        assert(other.subrange(0, 8) =~= timestamp_bytes(second));
    }
}

/// A signature presented with another time stamp than the one it was made
/// at is refused, unless the two messages have the same code.
pub proof fn law_altered_timestamp_fails(
    file_id: Seq<char>,
    secret_key: Seq<char>,
    signed_at: u64,
    presented: u64,
    expiry_seconds: u64,
    now: u64,
)
    requires
        signing_code(file_id, secret_key, signed_at) != signing_code(
            file_id,
            secret_key,
            presented,
        ),
    ensures
        !signature_valid(
            file_id,
            secret_key,
            signature_text(file_id, secret_key, signed_at),
            presented,
            expiry_seconds,
            now,
        ),
{
    lemma_hex_round_trip(signing_code(file_id, secret_key, signed_at));
}

/// A signature made under one key is refused under another, unless the two
/// keys give the message the same code.
pub proof fn law_other_key_fails(
    file_id: Seq<char>,
    signing_key: Seq<char>,
    other_key: Seq<char>,
    timestamp: u64,
    expiry_seconds: u64,
    now: u64,
)
    requires
        signing_code(file_id, signing_key, timestamp) != signing_code(
            file_id,
            other_key,
            timestamp,
        ),
    ensures
        !signature_valid(
            file_id,
            other_key,
            signature_text(file_id, signing_key, timestamp),
            timestamp,
            expiry_seconds,
            now,
        ),
{
    lemma_hex_round_trip(signing_code(file_id, signing_key, timestamp));
}

/// A signature made for one file is refused for another, unless the two
/// messages have the same code.
pub proof fn law_other_file_fails(
    signed_file: Seq<char>,
    other_file: Seq<char>,
    secret_key: Seq<char>,
    timestamp: u64,
    expiry_seconds: u64,
    now: u64,
)
    requires
        signing_code(signed_file, secret_key, timestamp) != signing_code(
            other_file,
            secret_key,
            timestamp,
        ),
    ensures
        !signature_valid(
            other_file,
            secret_key,
            signature_text(signed_file, secret_key, timestamp),
            timestamp,
            expiry_seconds,
            now,
        ),
{
    lemma_hex_round_trip(signing_code(signed_file, secret_key, timestamp));
}

/// A signature made for one file, key and time stamp is refused for any
/// other, unless the two have the same code.
pub proof fn law_signature_of_another_code_fails(
    signed_file: Seq<char>,
    signing_key: Seq<char>,
    signed_at: u64,
    file_id: Seq<char>,
    secret_key: Seq<char>,
    timestamp: u64,
    expiry_seconds: u64,
    now: u64,
)
    requires
        signing_code(signed_file, signing_key, signed_at) != signing_code(
            file_id,
            secret_key,
            timestamp,
        ),
    ensures
        !signature_authentic(
            file_id,
            secret_key,
            signature_text(signed_file, signing_key, signed_at),
            timestamp,
        ),
        !signature_valid(
            file_id,
            secret_key,
            signature_text(signed_file, signing_key, signed_at),
            timestamp,
            expiry_seconds,
            now,
        ),
{
    lemma_hex_round_trip(signing_code(signed_file, signing_key, signed_at));
}

/// Text that is not hexadecimal, or has an odd number of bytes, is no
/// signature of anything.
pub proof fn law_malformed_signature_fails(
    file_id: Seq<char>,
    secret_key: Seq<char>,
    signature: Seq<char>,
    timestamp: u64,
    expiry_seconds: u64,
    now: u64,
)
    requires
        !is_hex_text(encode_utf8(signature)),
    ensures
        !signature_authentic(file_id, secret_key, signature, timestamp),
        !signature_valid(file_id, secret_key, signature, timestamp, expiry_seconds, now),
{
}

} // verus!
