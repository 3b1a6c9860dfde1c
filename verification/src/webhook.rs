//! Inbound webhook signature verification.
//!
//! Hivehook signs every outbound webhook with an HMAC-SHA256 of
//! `{timestamp}.{payload}`. Use [`Webhook::verify`] from your receiver to
//! validate the signature.

use crate::text::{
    chars_of, decimal_int, decimal_string, push_char, string_of_range, trim, trim_bounds, trim_end,
    trim_start,
};
use hmac::Mac;
use vstd::prelude::*;
use vstd::utf8::encode_utf8;

verus! {

broadcast use vstd::string::group_string_axioms;

/// The HMAC-SHA256 tag of `message` under `key`.
pub uninterp spec fn hmac_sha256(key: Seq<u8>, message: Seq<u8>) -> Seq<u8>;

/// Computes the HMAC-SHA256 tag of `message` under `key` with the `hmac`
/// and `sha2` crates (`Hmac::<Sha256>::new_from_slice`, `update`,
/// `finalize`). The contract claims that the tag depends on the key and the
/// message alone, as named by [`hmac_sha256`], and is 32 bytes long (the
/// output size of SHA-256). `new_from_slice` accepts keys of every length
/// for HMAC, so the `expect` never fires.
#[verifier::external_body]
fn hmac_sha256_tag(key: &[u8], message: &[u8]) -> (tag: Vec<u8>)
    ensures
        tag@ == hmac_sha256(key@, message@),
        tag@.len() == 32,
{
    let mut mac = hmac::Hmac::<sha2::Sha256>::new_from_slice(key).expect(
        "HMAC accepts a key of any size",
    );
    mac.update(message);
    mac.finalize().into_bytes().to_vec()
}

/// The lower-case hexadecimal digit for `d` (below 16).
pub open spec fn hex_digit(d: u8) -> char {
    if d < 10 {
        crate::text::digit_char(d as nat)
    } else if d == 10 {
        'a'
    } else if d == 11 {
        'b'
    } else if d == 12 {
        'c'
    } else if d == 13 {
        'd'
    } else if d == 14 {
        'e'
    } else {
        'f'
    }
}

/// Lower-case hexadecimal encoding: two digits per byte, high nibble first.
pub open spec fn hex_lower(bytes: Seq<u8>) -> Seq<char>
    decreases bytes.len(),
{
    if bytes.len() == 0 {
        Seq::empty()
    } else {
        hex_lower(bytes.drop_last()) + seq![hex_digit(bytes.last() / 16), hex_digit(bytes.last() % 16)]
    }
}

/// Encodes `bytes` with `hex::encode`, which the `hex` crate documents and
/// implements as two lower-case digits (`0123456789abcdef`) per byte, high
/// nibble first.
#[verifier::external_body]
fn hex_encode(bytes: &[u8]) -> (s: String)
    ensures
        s@ == hex_lower(bytes@),
{
    hex::encode(bytes)
}

/// Declares `std::time::SystemTime`.
#[verifier::external_type_specification]
#[verifier::external_body]
pub struct ExSystemTime(std::time::SystemTime);

/// Reads the system clock (`SystemTime::now`). Nothing is stated of the
/// reading.
#[verifier::external_body]
fn clock_now() -> std::time::SystemTime {
    std::time::SystemTime::now()
}

/// The time elapsed from the Unix epoch to `t`
/// (`t.duration_since(UNIX_EPOCH)`), or `None` when `t` is earlier. Nothing
/// is stated of the value.
#[verifier::external_body]
fn since_unix_epoch(t: std::time::SystemTime) -> Option<std::time::Duration> {
    t.duration_since(std::time::UNIX_EPOCH).ok()
}

/// The whole seconds of `d` (`Duration::as_secs`). Nothing is stated of
/// the value.
#[verifier::external_body]
fn whole_seconds(d: std::time::Duration) -> u64 {
    d.as_secs()
}

/// The text that is signed: `{timestamp}.{payload}`.
pub open spec fn signed_text(payload: Seq<char>, timestamp: i64) -> Seq<char> {
    decimal_int(timestamp as int) + seq!['.'] + payload
}

/// The signature of `payload` under `secret` at `timestamp`:
/// `v1=` followed by the lower-case hex HMAC-SHA256 of the signed text.
pub open spec fn signature_for(payload: Seq<char>, secret: Seq<char>, timestamp: i64) -> Seq<
    char,
> {
    "v1="@ + hex_lower(hmac_sha256(encode_utf8(secret), encode_utf8(signed_text(payload, timestamp))))
}

/// Index of the first `,` in `s`, or its length when there is none.
pub open spec fn first_comma(s: Seq<char>) -> int
    decreases s.len(),
{
    if s.len() == 0 {
        0
    } else if s[0] == ',' {
        0
    } else {
        1 + first_comma(s.drop_first())
    }
}

/// Where the first comma of `s` can be.
pub proof fn lemma_first_comma_bounds(s: Seq<char>)
    ensures
        0 <= first_comma(s) <= s.len(),
        first_comma(s) < s.len() ==> s[first_comma(s)] == ',',
    decreases s.len(),
{
    if s.len() > 0 && s[0] != ',' {
        lemma_first_comma_bounds(s.drop_first());
    }
}

/// Whether `s` starts with `v1=`.
pub open spec fn starts_with_v1(s: Seq<char>) -> bool {
    s.len() >= 3 && s[0] == 'v' && s[1] == '1' && s[2] == '='
}

/// The first comma-separated element of a signature header that, once
/// trimmed, starts with `v1=`; the trimmed element itself.
pub open spec fn v1_element(s: Seq<char>) -> Option<Seq<char>>
    decreases s.len(),
{
    let cut = first_comma(s);
    let element = trim(s.take(cut));
    if starts_with_v1(element) {
        Some(element)
    } else if cut < s.len() {
        proof {
            lemma_first_comma_bounds(s);
        }
        v1_element(s.skip(cut + 1))
    } else {
        None
    }
}

/// Whether a signature header carries the signature of `payload` under
/// `secret` at `timestamp`.
pub open spec fn signature_accepted(
    payload: Seq<char>,
    secret: Seq<char>,
    signature: Seq<char>,
    timestamp: i64,
) -> bool {
    match v1_element(signature) {
        Some(v) => v == signature_for(payload, secret, timestamp),
        None => false,
    }
}

/// Whether `timestamp` is within `tolerance` seconds of the clock reading
/// `now` (a negative tolerance counts as zero).
pub open spec fn fresh(timestamp: i64, tolerance: i64, now: i64) -> bool {
    let age = if now >= timestamp {
        now - timestamp
    } else {
        timestamp - now
    };
    let limit = if tolerance > 0 {
        tolerance
    } else {
        0
    };
    age <= limit
}

/// What verification answers given the clock reading `now` (`None` when the
/// clock could not be read): with a tolerance the timestamp must be fresh,
/// and the signature must be accepted.
pub open spec fn verification(
    payload: Seq<char>,
    secret: Seq<char>,
    signature: Seq<char>,
    timestamp: i64,
    tolerance: Option<i64>,
    now: Option<i64>,
) -> bool {
    match tolerance {
        Some(tol) => match now {
            Some(n) => fresh(timestamp, tol, n) && signature_accepted(
                payload,
                secret,
                signature,
                timestamp,
            ),
            None => false,
        },
        None => signature_accepted(payload, secret, signature, timestamp),
    }
}

/// What verification against a primary and an optional secondary secret
/// answers, given the clock readings used for each.
pub open spec fn rotation_verification(
    payload: Seq<char>,
    primary: Seq<char>,
    secondary: Option<Seq<char>>,
    signature: Seq<char>,
    timestamp: i64,
    tolerance: Option<i64>,
    now_primary: Option<i64>,
    now_secondary: Option<i64>,
) -> bool {
    verification(payload, primary, signature, timestamp, tolerance, now_primary) || (
    secondary matches Some(sec) && verification(
        payload,
        sec,
        signature,
        timestamp,
        tolerance,
        now_secondary,
    ))
}

proof fn lemma_utf8_injective(a: Seq<char>, b: Seq<char>)
    ensures
        (encode_utf8(a) == encode_utf8(b)) == (a == b),
{
    vstd::utf8::encode_utf8_decode_utf8(a);
    vstd::utf8::encode_utf8_decode_utf8(b);
}

/// Static helper for signing and verifying Hivehook webhook payloads.
pub struct Webhook;

impl Webhook {
    /// Header carrying the `v1=...` HMAC signature.
    pub const HEADER_SIGNATURE: &'static str = "X-Hivehook-Signature";

    /// Header carrying the Unix timestamp used when signing.
    pub const HEADER_TIMESTAMP: &'static str = "X-Hivehook-Timestamp";

    /// Header carrying the unique message ID.
    pub const HEADER_MESSAGE_ID: &'static str = "X-Hivehook-Message-ID";

    /// Sign `payload` with `secret` and `timestamp`, producing a `v1=hex…`
    /// value suitable for the signature header.
    pub fn sign(payload: &str, secret: &str, timestamp: i64) -> (s: String)
        ensures
            s@ == signature_for(payload@, secret@, timestamp),
            s@.len() == 67,
    {
        let mut message = decimal_string(timestamp);
        push_char(&mut message, '.');
        message.append(payload);
        assert(message@ == signed_text(payload@, timestamp));
        let tag = hmac_sha256_tag(secret.as_bytes(), message.as_str().as_bytes());
        let mut signature = String::from_str("v1=");
        let hex = hex_encode(tag.as_slice());
        signature.append(hex.as_str());
        proof {
            reveal_strlit("v1=");
            lemma_hex_lower_chars(tag@);
        }
        signature
    }

    /// Verify `signature` against `payload`, `secret` and `timestamp`, given
    /// the clock reading `now` (`None` when the clock could not be read).
    /// Only the `v1` element of a comma-separated signature is consulted;
    /// with a tolerance, a timestamp more than that many seconds from `now`
    /// (or an unreadable clock) is rejected.
    pub fn verify_at(
        payload: &str,
        secret: &str,
        signature: &str,
        timestamp: i64,
        tolerance_seconds: Option<i64>,
        now: Option<i64>,
    ) -> (ok: bool)
        ensures
            ok == verification(payload@, secret@, signature@, timestamp, tolerance_seconds, now),
    {
        match tolerance_seconds {
            Some(tol) => {
                match now {
                    Some(n) => {
                        let diff: i128 = n as i128 - timestamp as i128;
                        let age: i128 = if diff >= 0 {
                            diff
                        } else {
                            -diff
                        };
                        let limit: i128 = if tol > 0 {
                            tol as i128
                        } else {
                            0
                        };
                        if age > limit {
                            return false;
                        }
                    },
                    None => {
                        return false;
                    },
                }
            },
            None => {},
        }
        let provided = match extract_v1(signature) {
            Some(v) => v,
            None => {
                return false;
            },
        };
        let expected = Self::sign(payload, secret, timestamp);
        let same = constant_time_eq(expected.as_str().as_bytes(), provided.as_str().as_bytes());
        proof {
            lemma_utf8_injective(expected@, provided@);
        }
        same
    }

    /// Verify a signature against the supplied payload, secret, and
    /// timestamp, reading the system clock when a tolerance is given.
    ///
    /// Tolerance semantics: `None` skips the freshness check; `Some(0)`
    /// rejects any drift; `Some(n)` rejects timestamps more than `n` seconds
    /// from the clock. If the clock cannot be read the signature is
    /// rejected.
    pub fn verify(
        payload: &str,
        secret: &str,
        signature: &str,
        timestamp: i64,
        tolerance_seconds: Option<i64>,
    ) -> (ok: bool)
        ensures
            tolerance_seconds is None ==> ok == signature_accepted(
                payload@,
                secret@,
                signature@,
                timestamp,
            ),
            ok ==> signature_accepted(payload@, secret@, signature@, timestamp),
            exists|now: Option<i64>|
                ok == verification(payload@, secret@, signature@, timestamp, tolerance_seconds, now),
    {
        let now: Option<i64> = match tolerance_seconds {
            Some(_) => match since_unix_epoch(clock_now()) {
                Some(d) => Some(whole_seconds(d) as i64),
                None => None,
            },
            None => None,
        };
        let ok = Self::verify_at(payload, secret, signature, timestamp, tolerance_seconds, now);
        assert(ok == verification(payload@, secret@, signature@, timestamp, tolerance_seconds, now));
        ok
    }

    /// Verify against a primary and an optional secondary (rotation)
    /// secret, with one clock reading for both.
    pub fn verify_with_rotation_at(
        payload: &str,
        primary: &str,
        secondary: Option<&str>,
        signature: &str,
        timestamp: i64,
        tolerance_seconds: Option<i64>,
        now: Option<i64>,
    ) -> (ok: bool)
        ensures
            ok == rotation_verification(
                payload@,
                primary@,
                crate::transport::opt_text(secondary),
                signature@,
                timestamp,
                tolerance_seconds,
                now,
                now,
            ),
    {
        if Self::verify_at(payload, primary, signature, timestamp, tolerance_seconds, now) {
            return true;
        }
        match secondary {
            Some(sec) => Self::verify_at(payload, sec, signature, timestamp, tolerance_seconds, now),
            None => false,
        }
    }

    /// Verify a signature against a primary secret and (optionally) a
    /// secondary rotation secret. Returns `true` if either accepts the
    /// signature.
    pub fn verify_with_rotation(
        payload: &str,
        primary: &str,
        secondary: Option<&str>,
        signature: &str,
        timestamp: i64,
        tolerance_seconds: Option<i64>,
    ) -> (ok: bool)
        ensures
            tolerance_seconds is None ==> ok == (signature_accepted(
                payload@,
                primary@,
                signature@,
                timestamp,
            ) || (secondary matches Some(sec) && signature_accepted(
                payload@,
                sec@,
                signature@,
                timestamp,
            ))),
            ok ==> signature_accepted(payload@, primary@, signature@, timestamp) || (
            secondary matches Some(sec) && signature_accepted(
                payload@,
                sec@,
                signature@,
                timestamp,
            )),
            exists|now1: Option<i64>, now2: Option<i64>|
                ok == #[trigger] rotation_verification(
                    payload@,
                    primary@,
                    crate::transport::opt_text(secondary),
                    signature@,
                    timestamp,
                    tolerance_seconds,
                    now1,
                    now2,
                ),
    {
        let first = Self::verify(payload, primary, signature, timestamp, tolerance_seconds);
        let ghost now1 = choose|now: Option<i64>|
            first == verification(payload@, primary@, signature@, timestamp, tolerance_seconds, now);
        if first {
            assert(first == rotation_verification(
                payload@,
                primary@,
                crate::transport::opt_text(secondary),
                signature@,
                timestamp,
                tolerance_seconds,
                now1,
                now1,
            ));
            return true;
        }
        match secondary {
            Some(sec) => {
                let second = Self::verify(payload, sec, signature, timestamp, tolerance_seconds);
                let ghost now2 = choose|now: Option<i64>|
                    second == verification(payload@, sec@, signature@, timestamp, tolerance_seconds, now);
                assert(second == rotation_verification(
                    payload@,
                    primary@,
                    crate::transport::opt_text(secondary),
                    signature@,
                    timestamp,
                    tolerance_seconds,
                    now1,
                    now2,
                ));
                second
            },
            None => {
                assert(first == rotation_verification(
                    payload@,
                    primary@,
                    crate::transport::opt_text(secondary),
                    signature@,
                    timestamp,
                    tolerance_seconds,
                    now1,
                    now1,
                ));
                false
            },
        }
    }
}

/// Extract the canonical `v1=hex…` element from a (possibly multi-scheme)
/// signature header: the first comma-separated element that, trimmed,
/// starts with `v1=`, returned whole so it can be compared directly against
/// [`Webhook::sign`] output.
pub fn extract_v1(signature: &str) -> (r: Option<String>)
    ensures
        r matches Some(v) ==> v1_element(signature@) == Some(v@),
        r is None ==> v1_element(signature@) is None,
{
    let v = chars_of(signature);
    let n = v.len();
    let mut start: usize = 0;
    assert(v@.subrange(0, n as int) == v@);
    loop
        invariant
            n == v@.len(),
            v@ == signature@,
            start <= n,
            v1_element(v@) == v1_element(v@.subrange(start as int, n as int)),
        decreases n - start,
    {
        let ghost rest = v@.subrange(start as int, n as int);
        let mut end = start;
        while end < n && v[end] != ','
            invariant
                start <= end <= n,
                n == v@.len(),
                rest == v@.subrange(start as int, n as int),
                first_comma(rest) == (end - start) + first_comma(v@.subrange(end as int, n as int)),
            decreases n - end,
        {
            assert(v@.subrange(end + 1, n as int) == v@.subrange(end as int, n as int).drop_first());
            end = end + 1;
        }
        assert(first_comma(v@.subrange(end as int, n as int)) == 0);
        assert(rest.take(end - start) == v@.subrange(start as int, end as int));
        let (lo, hi) = trim_bounds(&v, start, end);
        assert(first_comma(rest) == end - start);
        assert(trim(rest.take(first_comma(rest))) == v@.subrange(lo as int, hi as int));
        if hi - lo >= 3 && v[lo] == 'v' && v[lo + 1] == '1' && v[lo + 2] == '=' {
            return Some(string_of_range(&v, lo, hi));
        }
        if end == n {
            return None;
        }
        assert(rest.skip(end - start + 1) == v@.subrange(end + 1, n as int));
        start = end + 1;
    }
}

/// Compares `a` and `b` in time that depends on their length alone.
pub fn constant_time_eq(a: &[u8], b: &[u8]) -> (same: bool)
    ensures
        same == (a@ == b@),
{
    if a.len() != b.len() {
        return false;
    }
    let mut result: u8 = 0;
    for i in 0..a.len()
        invariant
            a@.len() == b@.len(),
            (result == 0) == (forall|j: int| 0 <= j < i ==> a@[j] == b@[j]),
    {
        let x = a[i];
        let y = b[i];
        let prev = result;
        result = result | (x ^ y);
        assert((prev | (x ^ y)) == 0 <==> (prev == 0 && x == y)) by (bit_vector);
    }
    proof {
        if result == 0 {
            assert(a@ == b@);
        }
    }
    result == 0
}

/// Whether `c` is one of the characters of a `v1=` signature that
/// [`Webhook::sign`] makes: a lower-case hex digit, `v`, `1` or `=`.
pub open spec fn signature_char(c: char) -> bool {
    ||| '0' <= c <= '9'
    ||| 'a' <= c <= 'f'
    ||| c == 'v'
    ||| c == '='
}

proof fn lemma_hex_digit_char(d: u8)
    ensures
        signature_char(hex_digit(d)),
{
}

proof fn lemma_hex_lower_chars(bytes: Seq<u8>)
    ensures
        forall|i: int| 0 <= i < hex_lower(bytes).len() ==> signature_char(#[trigger] hex_lower(bytes)[i]),
        hex_lower(bytes).len() == 2 * bytes.len(),
    decreases bytes.len(),
{
    if bytes.len() > 0 {
        lemma_hex_lower_chars(bytes.drop_last());
        lemma_hex_digit_char(bytes.last() / 16);
        lemma_hex_digit_char(bytes.last() % 16);
    }
}

proof fn lemma_no_comma(s: Seq<char>)
    requires
        forall|i: int| 0 <= i < s.len() ==> #[trigger] s[i] != ',',
    ensures
        first_comma(s) == s.len(),
    decreases s.len(),
{
    if s.len() > 0 {
        assert forall|i: int| 0 <= i < s.drop_first().len() implies #[trigger] s.drop_first()[i] != ',' by {
            assert(s.drop_first()[i] == s[i + 1]);
        }
        lemma_no_comma(s.drop_first());
    }
}

/// Every character of a signature made by [`Webhook::sign`] is a
/// lower-case hex digit or part of the `v1=` prefix: it holds no comma and
/// no white space.
pub proof fn lemma_signature_chars(payload: Seq<char>, secret: Seq<char>, timestamp: i64)
    ensures
        forall|i: int| 0 <= i < signature_for(payload, secret, timestamp).len() ==> signature_char(
            #[trigger] signature_for(payload, secret, timestamp)[i],
        ),
        starts_with_v1(signature_for(payload, secret, timestamp)),
{
    reveal_strlit("v1=");
    let tag = hmac_sha256(encode_utf8(secret), encode_utf8(signed_text(payload, timestamp)));
    lemma_hex_lower_chars(tag);
    let sig = signature_for(payload, secret, timestamp);
    assert forall|i: int| 0 <= i < sig.len() implies signature_char(#[trigger] sig[i]) by {
        if i >= 3 {
            assert(sig[i] == hex_lower(tag)[i - 3]);
        }
    }
}

/// A header holding nothing but one signature made by [`Webhook::sign`]
/// yields that signature as its `v1` element.
pub proof fn lemma_v1_element_of_signature(payload: Seq<char>, secret: Seq<char>, timestamp: i64)
    ensures
        v1_element(signature_for(payload, secret, timestamp)) == Some(
            signature_for(payload, secret, timestamp),
        ),
{
    let sig = signature_for(payload, secret, timestamp);
    lemma_signature_chars(payload, secret, timestamp);
    assert forall|i: int| 0 <= i < sig.len() implies #[trigger] sig[i] != ',' by {
        assert(signature_char(sig[i]));
    }
    lemma_no_comma(sig);
    assert(sig.take(sig.len() as int) == sig);
    assert(signature_char(sig[0]));
    assert(trim_start(sig) == sig);
    assert(signature_char(sig.last()));
    assert(trim_end(sig) == sig);
}

/// Signing and verifying agree: a signature made by [`Webhook::sign`] for
/// a payload, secret and timestamp is accepted for them, whatever the
/// clock reads when no tolerance is given, and with any tolerance when the
/// clock is within it.
pub proof fn lemma_sign_then_verify(
    payload: Seq<char>,
    secret: Seq<char>,
    timestamp: i64,
    tolerance: Option<i64>,
    now: Option<i64>,
)
    requires
        tolerance matches Some(tol) ==> (now matches Some(n) && fresh(timestamp, tol, n)),
    ensures
        verification(
            payload,
            secret,
            signature_for(payload, secret, timestamp),
            timestamp,
            tolerance,
            now,
        ),
{
    lemma_v1_element_of_signature(payload, secret, timestamp);
}

/// Rotation accepts what either secret signed: a signature made with the
/// primary secret, or with the secondary one when there is one, passes
/// verification against the pair.
pub proof fn lemma_rotation_accepts_either(
    payload: Seq<char>,
    primary: Seq<char>,
    secondary: Option<Seq<char>>,
    signer: Seq<char>,
    timestamp: i64,
    tolerance: Option<i64>,
    now: Option<i64>,
)
    requires
        signer == primary || secondary == Some(signer),
        tolerance matches Some(tol) ==> (now matches Some(n) && fresh(timestamp, tol, n)),
    ensures
        rotation_verification(
            payload,
            primary,
            secondary,
            signature_for(payload, signer, timestamp),
            timestamp,
            tolerance,
            now,
            now,
        ),
{
    lemma_sign_then_verify(payload, signer, timestamp, tolerance, now);
}

/// A timestamp equal to the clock reading is fresh under every tolerance,
/// and freshness only grows with the tolerance.
pub proof fn lemma_fresh_monotone(timestamp: i64, small: i64, large: i64, now: i64)
    requires
        small <= large,
    ensures
        fresh(timestamp, small, timestamp),
        fresh(timestamp, small, now) ==> fresh(timestamp, large, now),
{
}

proof fn lemma_no_comma_before(s: Seq<char>)
    ensures
        forall|i: int| 0 <= i < first_comma(s) ==> #[trigger] s[i] != ',',
    decreases s.len(),
{
    lemma_first_comma_bounds(s);
    if s.len() > 0 && s[0] != ',' {
        lemma_no_comma_before(s.drop_first());
        assert forall|i: int| 0 <= i < first_comma(s) implies #[trigger] s[i] != ',' by {
            if i > 0 {
                assert(s[i] == s.drop_first()[i - 1]);
            }
        }
    }
}

proof fn lemma_trim_start_suffix(t: Seq<char>) -> (a: int)
    ensures
        0 <= a <= t.len(),
        trim_start(t) == t.subrange(a, t.len() as int),
    decreases t.len(),
{
    if t.len() > 0 && crate::text::is_white_space(t[0]) {
        let a = lemma_trim_start_suffix(t.drop_first());
        assert(t.drop_first().subrange(a, t.drop_first().len() as int) == t.subrange(
            a + 1,
            t.len() as int,
        ));
        a + 1
    } else {
        assert(t.subrange(0, t.len() as int) == t);
        0
    }
}

proof fn lemma_trim_end_prefix(t: Seq<char>) -> (b: int)
    ensures
        0 <= b <= t.len(),
        trim_end(t) == t.subrange(0, b),
        b > 0 ==> !crate::text::is_white_space(t[b - 1]),
    decreases t.len(),
{
    if t.len() > 0 && crate::text::is_white_space(t.last()) {
        let b = lemma_trim_end_prefix(t.drop_last());
        assert(t.drop_last().subrange(0, b) == t.subrange(0, b));
        b
    } else {
        assert(t.subrange(0, t.len() as int) == t);
        t.len() as int
    }
}

/// What [`extract_v1`] yields is an element of the header, trimmed, that
/// starts with `v1=` and holds no comma.
pub proof fn lemma_v1_element_shape(s: Seq<char>)
    ensures
        v1_element(s) matches Some(e) ==> starts_with_v1(e) && trim(e) == e && (forall|i: int|
            0 <= i < e.len() ==> #[trigger] e[i] != ','),
    decreases s.len(),
{
    let cut = first_comma(s);
    lemma_first_comma_bounds(s);
    lemma_no_comma_before(s);
    let piece = s.take(cut);
    let element = trim(piece);
    if starts_with_v1(element) {
        let a = lemma_trim_start_suffix(piece);
        let rest = piece.subrange(a, piece.len() as int);
        let b = lemma_trim_end_prefix(rest);
        assert(element == piece.subrange(a, a + b));
        assert forall|i: int| 0 <= i < element.len() implies #[trigger] element[i] != ',' by {
            assert(element[i] == s[a + i]);
        }
        assert(!crate::text::is_white_space(element[0]));
        assert(trim_start(element) == element);
        assert(element.last() == rest[b - 1]);
        assert(trim_end(element) == element);
    } else if cut < s.len() {
        lemma_v1_element_shape(s.skip(cut + 1));
    }
}

/// Rotation checks freshness once for both secrets: with a tolerance, an
/// accepted signature has a timestamp within the tolerance of the clock
/// reading, whichever secret accepted it; without a fresh timestamp
/// neither secret is tried.
pub proof fn lemma_rotation_freshness(
    payload: Seq<char>,
    primary: Seq<char>,
    secondary: Option<Seq<char>>,
    signature: Seq<char>,
    timestamp: i64,
    tol: i64,
    now: Option<i64>,
)
    ensures
        rotation_verification(
            payload,
            primary,
            secondary,
            signature,
            timestamp,
            Some(tol),
            now,
            now,
        ) ==> (now matches Some(n) && fresh(timestamp, tol, n)),
        rotation_verification(
            payload,
            primary,
            secondary,
            signature,
            timestamp,
            Some(tol),
            now,
            now,
        ) ==> (signature_accepted(payload, primary, signature, timestamp) || (
        secondary matches Some(sec) && signature_accepted(payload, sec, signature, timestamp))),
{
}

} // verus!
