//! Signed webhooks: who sent them, and when.
use crate::ids::hex_digit;
use crate::text;
use crate::text::{parsed_int, trimmed, within};
use hmac::Mac;
use subtle::ConstantTimeEq;
use vstd::prelude::*;
use vstd::utf8::encode_utf8;

verus! {

/// How far the time of a webhook may be off, in seconds.
pub const WEBHOOK_MAX_SKEW_SECS: i64 = 300;

/// The HMAC-SHA256 of a message under a key.
pub uninterp spec fn hmac_sha256(key: Seq<u8>, message: Seq<u8>) -> Seq<u8>;

/// `hmac::Hmac<sha2::Sha256>`: the authentication code of a message under a key
/// of any length, thirty-two bytes.
#[verifier::external_body]
fn mac_of(key: &[u8], message: &[u8]) -> (r: Vec<u8>)
    ensures
        r@ == hmac_sha256(key@, message@),
        r@.len() == 32,
{
    let mut mac = hmac::Hmac::<sha2::Sha256>::new_from_slice(key).unwrap();
    mac.update(message);
    mac.finalize().into_bytes().to_vec()
}

/// Two small hexadecimal digits for each byte.
pub open spec fn hex_text(bytes: Seq<u8>) -> Seq<char> {
    Seq::new(
        bytes.len() * 2,
        |i: int|
            if i % 2 == 0 {
                hex_digit(bytes[i / 2] as int / 16)
            } else {
                hex_digit(bytes[i / 2] as int % 16)
            },
    )
}

/// `hex::encode`: two small hexadecimal digits for each byte.
#[verifier::external_body]
fn hex_encode(bytes: &[u8]) -> (r: String)
    ensures
        r@ == hex_text(bytes@),
{
    hex::encode(bytes)
}

/// `subtle::ConstantTimeEq::ct_eq`: whether two rows of bytes are equal.
#[verifier::external_body]
fn constant_time_eq(a: &[u8], b: &[u8]) -> (r: bool)
    ensures
        r == (a@ == b@),
{
    a.ct_eq(b).into()
}

/// What is signed: the time, a dot, the body as it came.
pub open spec fn signed_message(timestamp: Seq<char>, raw_body: Seq<u8>) -> Seq<u8> {
    encode_utf8(timestamp) + seq![46u8] + raw_body
}

/// The signature of a webhook under a secret, as the header carries it.
pub open spec fn signature(secret: Seq<u8>, timestamp: Seq<char>, raw_body: Seq<u8>) -> Seq<char> {
    "sha256="@ + hex_text(hmac_sha256(secret, signed_message(timestamp, raw_body)))
}

fn append_bytes(out: &mut Vec<u8>, bytes: &[u8])
    ensures
        final(out)@ == old(out)@ + bytes@,
{
    let ghost start = out@;
    let mut i: usize = 0;
    assert(start + bytes@.take(0) =~= start);
    while i < bytes.len()
        invariant
            i <= bytes@.len(),
            out@ == start + bytes@.take(i as int),
        decreases bytes@.len() - i,
    {
        out.push(bytes[i]);
        i += 1;
        assert(out@ =~= start + bytes@.take(i as int));
    }
    assert(bytes@.take(i as int) =~= bytes@);
}

/// Whether the header carries the given code, compared in constant time.
pub fn header_matches(mac: &Vec<u8>, header_sig: &str) -> (r: bool)
    ensures
        r == (header_sig@ == "sha256="@ + hex_text(mac@)),
{
    let expected = "sha256=".to_string().concat(hex_encode(mac.as_slice()).as_str());
    let r = constant_time_eq(expected.as_str().as_bytes(), header_sig.as_bytes());
    proof {
        vstd::utf8::encode_utf8_decode_utf8(expected@);
        vstd::utf8::encode_utf8_decode_utf8(header_sig@);
    }
    r
}

/// Whether a webhook carries the signature of the secret.
pub fn verify_webhook_signature(
    secret: &[u8],
    timestamp: &str,
    raw_body: &[u8],
    header_sig: &str,
) -> (r: bool)
    ensures
        r == (header_sig@ == signature(secret@, timestamp@, raw_body@)),
{
    let mut message: Vec<u8> = Vec::new();
    append_bytes(&mut message, timestamp.as_bytes());
    message.push(46);
    append_bytes(&mut message, raw_body);
    assert(message@ =~= signed_message(timestamp@, raw_body@));
    let mac = mac_of(secret, message.as_slice());
    header_matches(&mac, header_sig)
}

/// Whether a header is the signature of a message under one of the secrets.
pub open spec fn accepted_by_one(
    secrets: Seq<&[u8]>,
    timestamp: Seq<char>,
    raw_body: Seq<u8>,
    header: Seq<char>,
) -> bool {
    exists|i: int|
        0 <= i < secrets.len() && header == signature(
            (#[trigger] secrets[i])@,
            timestamp,
            raw_body,
        )
}

/// Whether a webhook carries the signature of one of the secrets.
pub fn verify_webhook_signature_any(
    secrets: &[&[u8]],
    timestamp: &str,
    raw_body: &[u8],
    header_sig: &str,
) -> (r: bool)
    ensures
        r == accepted_by_one(secrets@, timestamp@, raw_body@, header_sig@),
        r == exists|i: int|
            0 <= i < secrets@.len() && header_sig@ == signature(
                (#[trigger] secrets@[i])@,
                timestamp@,
                raw_body@,
            ),
{
    let mut i: usize = 0;
    while i < secrets.len()
        invariant
            i <= secrets@.len(),
            forall|k: int|
                0 <= k < i ==> header_sig@ != signature(
                    (#[trigger] secrets@[k])@,
                    timestamp@,
                    raw_body@,
                ),
        decreases secrets@.len() - i,
    {
        if verify_webhook_signature(secrets[i], timestamp, raw_body, header_sig) {
            assert(header_sig@ == signature(secrets@[i as int]@, timestamp@, raw_body@));
            return true;
        }
        i += 1;
    }
    false
}

/// Whether a time, a text of Unix seconds, is at most `max_skew` away from now.
pub open spec fn fresh(timestamp: Seq<char>, now_secs: int, max_skew: int) -> bool {
    match within(parsed_int(trimmed(timestamp)), i64::MIN as int, i64::MAX as int) {
        Some(ts) => -max_skew <= now_secs - ts <= max_skew,
        None => false,
    }
}

/// Whether a time is at most `max_skew` seconds away from now.
pub fn is_timestamp_fresh(timestamp: &str, now_secs: i64, max_skew: i64) -> (r: bool)
    ensures
        r == fresh(timestamp@, now_secs as int, max_skew as int),
{
    match text::parse_i64(text::trim(timestamp).as_str()) {
        Some(ts) => {
            let d: i128 = now_secs as i128 - ts as i128;
            let m: i128 = max_skew as i128;
            -m <= d && d <= m
        },
        None => false,
    }
}

/// `SystemTime::now`: the seconds since the Unix epoch; `None` where the clock
/// stands before it. The clock decides, so nothing is said of them.
#[verifier::external_body]
fn clock_secs() -> (r: Option<u64>)
{
    std::time::SystemTime::now().duration_since(std::time::UNIX_EPOCH).ok().map(|d| d.as_secs())
}

/// The Unix seconds of a reading of the clock; 0 where it stands before the epoch.
pub open spec fn unix_time(clock: Option<u64>) -> i64 {
    match clock {
        Some(n) => n as i64,
        None => 0,
    }
}

/// The Unix seconds of a reading of the clock; 0 where it stands before the epoch.
pub fn unix_secs(clock: Option<u64>) -> (r: i64)
    ensures
        r == unix_time(clock),
{
    match clock {
        Some(n) => #[verifier::truncate]
        (n as i64),
        None => 0,
    }
}

/// The clock, in Unix seconds. The clock decides: all that holds of every outcome
/// is that it is read and taken as [`unix_secs`] takes it.
pub(crate) fn now_secs() -> (r: i64)
    ensures
        exists|clock: Option<u64>| r == #[trigger] unix_time(clock),
{
    unix_secs(clock_secs())
}

/// Whether a time is at most `max_skew` seconds away from the clock.
pub fn is_timestamp_fresh_now(timestamp: &str, max_skew: i64) -> (r: bool)
    ensures
        exists|now: i64| r == #[trigger] fresh(timestamp@, now as int, max_skew as int),
{
    is_timestamp_fresh(timestamp, now_secs(), max_skew)
}

// ---------------------------------------------------------------------------
// Laws
// ---------------------------------------------------------------------------

/// While secrets are rotated every one of them is accepted: a webhook signed
/// under the `i`-th passes.
pub proof fn law_every_secret_is_accepted(
    secrets: Seq<Seq<u8>>,
    i: int,
    timestamp: Seq<char>,
    raw_body: Seq<u8>,
)
    requires
        0 <= i < secrets.len(),
    ensures
        exists|k: int|
            0 <= k < secrets.len() && signature(secrets[i], timestamp, raw_body) == signature(
                #[trigger] secrets[k],
                timestamp,
                raw_body,
            ),
{
    assert(signature(secrets[i], timestamp, raw_body) == signature(
        secrets[i],
        timestamp,
        raw_body,
    ));
}

/// A webhook that is fresh at two times is fresh at every time between.
pub proof fn law_freshness_is_a_window(
    timestamp: Seq<char>,
    a: int,
    now: int,
    b: int,
    max_skew: int,
)
    requires
        a <= now <= b,
        fresh(timestamp, a, max_skew),
        fresh(timestamp, b, max_skew),
    ensures
        fresh(timestamp, now, max_skew),
{
}

proof fn lemma_numbers_are_trimmed(n: int)
    ensures
        trimmed(text::int_text(n)) == text::int_text(n),
{
    let s = text::int_text(n);
    text::law_numbers_read_back(n);
    text::law_only_digits_are_read(s);
    let r = text::law_trimming_takes_white_ends(s);
    text::lemma_number_chars(n, 0);
    text::lemma_number_chars(n, s.len() - 1);
    if r.0 > 0 {
        assert(text::white(s[0]));
    }
    if r.1 < s.len() {
        assert(text::white(s[s.len() - 1]));
    }
    assert(s.subrange(0, s.len() as int) =~= s);
}

/// A time is fresh where it lies at most the allowed number of seconds before or
/// after now, and not one second further.
pub proof fn law_fresh_means_close(ts: i64, now: i64, max_skew: i64, text: &str, r: bool)
    requires
        text@ == text::int_text(ts as int),
        call_ensures(is_timestamp_fresh, (text, now, max_skew), r),
    ensures
        r <==> (if ts <= now {
            now - ts <= max_skew
        } else {
            ts - now <= max_skew
        }),
{
    lemma_numbers_are_trimmed(ts as int);
    text::law_numbers_read_back(ts as int);
}

/// A text that is no number is never fresh, however much may be off.
pub proof fn law_no_time_is_never_fresh(text: &str, now: i64, max_skew: i64, r: bool)
    requires
        parsed_int(trimmed(text@)) is None,
        call_ensures(is_timestamp_fresh, (text, now, max_skew), r),
    ensures
        !r,
{
}

/// What is signed holds the time and the whole body, with a dot between them.
pub proof fn law_time_and_body_are_signed(timestamp: Seq<char>, raw_body: Seq<u8>)
    ensures
        ({
            let m = signed_message(timestamp, raw_body);
            let n = encode_utf8(timestamp).len() as int;
            &&& m.take(n) == encode_utf8(timestamp)
            &&& m[n] == 46
            &&& m.skip(n + 1) == raw_body
        }),
{
    let m = signed_message(timestamp, raw_body);
    let n = encode_utf8(timestamp).len() as int;
    assert(m.take(n) =~= encode_utf8(timestamp));
    assert(m.skip(n + 1) =~= raw_body);
}

/// A header is accepted just where it is the text `sha256=` and the code of the
/// message under the secret, two digits for each byte.
pub proof fn law_the_signature_is_the_code_of_the_message(
    secret: &[u8],
    timestamp: &str,
    raw_body: &[u8],
    header: &str,
    r: bool,
)
    requires
        call_ensures(verify_webhook_signature, (secret, timestamp, raw_body, header), r),
    ensures
        ({
            let code = hmac_sha256(secret@, encode_utf8(timestamp@) + seq![46u8] + raw_body@);
            r <==> {
                &&& header@.len() == 7 + 2 * code.len()
                &&& header@.take(7) == "sha256="@
                &&& forall|i: int|
                    #![trigger code[i]]
                    0 <= i < code.len() ==> header@[7 + 2 * i] == hex_digit(code[i] as int / 16)
                        && header@[8 + 2 * i] == hex_digit(code[i] as int % 16)
            }
        }),
{
    reveal_strlit("sha256=");
    let code = hmac_sha256(secret@, encode_utf8(timestamp@) + seq![46u8] + raw_body@);
    let sig = signature(secret@, timestamp@, raw_body@);
    assert(sig == "sha256="@ + hex_text(code));
    assert(sig.take(7) =~= "sha256="@);
    assert forall|i: int| #![trigger code[i]] 0 <= i < code.len() implies sig[7 + 2 * i]
        == hex_digit(code[i] as int / 16) && sig[8 + 2 * i] == hex_digit(code[i] as int % 16) by {
        assert(sig[7 + 2 * i] == hex_text(code)[2 * i]);
        assert(sig[8 + 2 * i] == hex_text(code)[2 * i + 1]);
    }
    if header@.len() == 7 + 2 * code.len() && header@.take(7) == "sha256="@ && forall|i: int|
        #![trigger code[i]]
        0 <= i < code.len() ==> header@[7 + 2 * i] == hex_digit(code[i] as int / 16)
            && header@[8 + 2 * i] == hex_digit(code[i] as int % 16) {
        assert forall|k: int| 0 <= k < sig.len() implies header@[k] == sig[k] by {
            if k < 7 {
                assert(header@.take(7)[k] == header@[k]);
            } else {
                let i = (k - 7) / 2;
                let b = code[i];
                assert(k == 7 + 2 * i || k == 8 + 2 * i);
            }
        }
        assert(header@ =~= sig);
    }
}

/// A webhook passes just where it passes under one of the secrets: under the
/// `k`-th, where that accepts it, and under none, where none does.
pub proof fn law_one_secret_is_enough(
    secrets: &[&[u8]],
    timestamp: &str,
    raw_body: &[u8],
    header: &str,
    k: int,
    one: bool,
    r: bool,
)
    requires
        0 <= k < secrets@.len(),
        call_ensures(verify_webhook_signature, (secrets@[k], timestamp, raw_body, header), one),
        call_ensures(verify_webhook_signature_any, (secrets, timestamp, raw_body, header), r),
    ensures
        one ==> r,
        secrets@.len() == 1 ==> r == one,
{
    if one {
        assert(header@ == signature(secrets@[k]@, timestamp@, raw_body@));
    }
    if r && secrets@.len() == 1 {
        let j = choose|j: int|
            0 <= j < secrets@.len() && header@ == signature(
                (#[trigger] secrets@[j])@,
                timestamp@,
                raw_body@,
            );
        assert(j == k);
    }
}

/// A webhook that no secret accepts does not pass; so nothing passes where there
/// is no secret.
pub proof fn law_no_secret_is_too_few(
    secrets: &[&[u8]],
    timestamp: &str,
    raw_body: &[u8],
    header: &str,
    r: bool,
)
    requires
        forall|i: int|
            0 <= i < secrets@.len() ==> header@ != signature(
                (#[trigger] secrets@[i])@,
                timestamp@,
                raw_body@,
            ),
        call_ensures(verify_webhook_signature_any, (secrets, timestamp, raw_body, header), r),
    ensures
        !r,
{
}

/// The clock is read in seconds; where it stands before the epoch, it reads as
/// the epoch.
pub proof fn law_the_clock_counts_from_the_epoch(clock: Option<u64>, r: i64)
    requires
        clock matches Some(n) ==> n <= i64::MAX,
        call_ensures(unix_secs, (clock,), r),
    ensures
        clock matches Some(n) ==> r == n,
        clock is None ==> r == 0,
{
}

/// A header matches a code where it is `sha256=` and the digits of the code.
pub proof fn law_headers_are_matched_whole(mac: Vec<u8>, header: &str, r: bool)
    requires
        call_ensures(header_matches, (&mac, header), r),
    ensures
        r ==> header@.len() == 7 + 2 * mac@.len() && header@.take(7) == "sha256="@,
        forall|i: int|
            0 <= i < mac@.len() && r ==> header@[7 + 2 * i] == hex_digit(
                (#[trigger] mac@[i]) as int / 16,
            ) && header@[8 + 2 * i] == hex_digit(mac@[i] as int % 16),
{
    reveal_strlit("sha256=");
    if r {
        assert(header@.take(7) =~= "sha256="@);
        assert forall|i: int| 0 <= i < mac@.len() implies header@[7 + 2 * i] == hex_digit(
            (#[trigger] mac@[i]) as int / 16,
        ) && header@[8 + 2 * i] == hex_digit(mac@[i] as int % 16) by {
            assert(header@[7 + 2 * i] == hex_text(mac@)[2 * i]);
            assert(header@[8 + 2 * i] == hex_text(mac@)[2 * i + 1]);
        }
    }
}

} // verus!
