//! The destination URL of a send: query assembly and the timestamped
//! HMAC-SHA256 signature.
use vstd::prelude::*;
use vstd::utf8::encode_utf8;
use hmac::Mac;
use crate::error::DingTalkError;
use crate::msg::DingTalkType;
use crate::client::DingTalk;

verus! {

/// The bytes that percent-encoding leaves as they are: ASCII letters and
/// digits, `-`, `.`, `_` and `~`.
pub open spec fn is_unreserved_byte(b: u8) -> bool {
    (48 <= b && b <= 57) || (65 <= b && b <= 90) || (97 <= b && b <= 122) || b == 45 || b == 46
        || b == 95 || b == 126
}

/// An uppercase hexadecimal digit.
pub open spec fn hex_digit(d: u8) -> char {
    if d < 10 {
        ((48 + d) as u8) as char
    } else {
        ((55 + d) as u8) as char
    }
}

/// The percent-encoding of one byte.
pub open spec fn byte_text(b: u8) -> Seq<char> {
    if is_unreserved_byte(b) {
        seq![b as char]
    } else {
        seq!['%', hex_digit(b / 16), hex_digit(b % 16)]
    }
}

/// The percent-encoding of a byte string, byte by byte.
pub open spec fn percent_encoded(b: Seq<u8>) -> Seq<char>
    decreases b.len(),
{
    if b.len() == 0 {
        Seq::empty()
    } else {
        percent_encoded(b.drop_last()) + byte_text(b.last())
    }
}

/// The URL-encoding of a string: its UTF-8 bytes, percent-encoded.
pub open spec fn url_encoded_of(s: Seq<char>) -> Seq<char> {
    percent_encoded(encode_utf8(s))
}

/// The characters of base64's standard alphabet, and its padding `=`.
pub open spec fn is_base64_char(c: char) -> bool {
    ('A' <= c && c <= 'Z') || ('a' <= c && c <= 'z') || ('0' <= c && c <= '9') || c == '+' || c
        == '/' || c == '='
}

/// What base64's standard, padded encoding writes for `b`.
pub uninterp spec fn base64_of(b: Seq<u8>) -> Seq<char>;

/// The HMAC-SHA256 tag of `msg` under `key`.
pub uninterp spec fn hmac_sha256_of(key: Seq<u8>, msg: Seq<u8>) -> Seq<u8>;

/// Relies on `urlencoding::encode`: it percent-encodes every UTF-8 byte of `s`
/// except ASCII alphanumerics and `-`, `_`, `.`, `~`, writing `%` and two
/// uppercase hexadecimal digits.
#[verifier::external_body]
fn url_encode(s: &str) -> (r: String)
    ensures
        r@ == url_encoded_of(s@),
{
    urlencoding::encode(s)
}

/// Relies on `base64::encode` (standard alphabet `A-Z a-z 0-9 + /`, padded
/// with `=`): four characters for each started group of three bytes. It panics only where that length
/// overflows `usize`.
#[verifier::external_body]
fn base64_encode(b: &[u8]) -> (r: String)
    requires
        b@.len() <= usize::MAX / 4,
    ensures
        r@ == base64_of(b@),
        r@.len() == 4 * ((b@.len() + 2) / 3),
        forall|i: int| 0 <= i < r@.len() ==> is_base64_char(#[trigger] r@[i]),
{
    base64::encode(b)
}

/// Relies on hmac's `Hmac<Sha256>` (`Mac::new_varkey`, `Mac::input`,
/// `MacResult::code`): the 32-byte HMAC-SHA256 tag of `msg` under `key`.
/// `Hmac::new_varkey` accepts every key (short keys are padded, long ones
/// hashed), so the result is always `Some`.
#[verifier::external_body]
fn hmac_sha256(key: &[u8], msg: &[u8]) -> (r: Option<Vec<u8>>)
    ensures
        r is Some,
        r matches Some(t) ==> t@ == hmac_sha256_of(key@, msg@) && t@.len() == 32,
{
    match hmac::Hmac::<sha2::Sha256>::new_varkey(key) {
        Ok(mut mac) => {
            mac.input(msg);
            Some(mac.result().code().to_vec())
        },
        Err(_) => None,
    }
}

#[verifier::external_type_specification]
#[verifier::external_body]
pub struct ExSystemTimeError(std::time::SystemTimeError);

/// Relies on `SystemTime::elapsed` applied to `UNIX_EPOCH`: the time from the
/// epoch to the wall clock now, or an error when the clock reads earlier.
/// Nothing is known of the value.
#[verifier::external_body]
fn since_epoch() -> (r: Result<std::time::Duration, std::time::SystemTimeError>) {
    std::time::UNIX_EPOCH.elapsed()
}

/// Relies on `Duration::as_millis`: the whole milliseconds of a duration.
pub assume_specification[ std::time::Duration::as_millis ](d: &std::time::Duration) -> u128;

/// The base URL followed by the separator that the next query parameter needs.
pub open spec fn query_base(url: Seq<char>) -> Seq<char> {
    if url.len() > 0 && url.last() == '?' {
        url
    } else if url.contains('?') {
        if url.len() > 0 && url.last() == '&' {
            url
        } else {
            url + "&"@
        }
    } else {
        url + "?"@
    }
}

/// The name of the credential parameter, with its `=`.
pub open spec fn credential_key(t: DingTalkType) -> Seq<char> {
    match t {
        DingTalkType::DingTalk => "access_token="@,
        DingTalkType::WeChatWork => "key="@,
    }
}

pub open spec fn digit_text(d: nat) -> Seq<char> {
    if d == 0 {
        "0"@
    } else if d == 1 {
        "1"@
    } else if d == 2 {
        "2"@
    } else if d == 3 {
        "3"@
    } else if d == 4 {
        "4"@
    } else if d == 5 {
        "5"@
    } else if d == 6 {
        "6"@
    } else if d == 7 {
        "7"@
    } else if d == 8 {
        "8"@
    } else {
        "9"@
    }
}

/// The decimal notation of `n`, without leading zeros.
pub open spec fn decimal(n: nat) -> Seq<char>
    decreases n,
{
    if n < 10 {
        digit_text(n)
    } else {
        decimal(n / 10) + digit_text(n % 10)
    }
}

/// The text that is signed: the timestamp, a newline, the secret.
pub open spec fn sign_input(timestamp: nat, secret: Seq<char>) -> Seq<char> {
    decimal(timestamp) + "\n"@ + secret
}

/// The signature of a request at `timestamp`, before it is URL-encoded.
pub open spec fn signature(timestamp: nat, secret: Seq<char>) -> Seq<char> {
    base64_of(hmac_sha256_of(encode_utf8(secret), encode_utf8(sign_input(timestamp, secret))))
}

/// The destination without a signature.
pub open spec fn unsigned_url(d: DingTalk) -> Seq<char> {
    query_base(d.default_webhook_url@) + credential_key(d.dingtalk_type) + url_encoded_of(
        d.access_token@,
    )
}

/// Whether the destination is assembled and signed (no direct URL, a secret).
pub open spec fn is_signed(d: DingTalk) -> bool {
    d.direct_url@.len() == 0 && d.sec_token@.len() > 0
}

/// The destination of a send made at `timestamp` (milliseconds since the
/// epoch): the direct URL when one is set, else the assembled URL, signed
/// when a secret is set.
pub open spec fn destination(d: DingTalk, timestamp: nat) -> Seq<char> {
    if d.direct_url@.len() > 0 {
        d.direct_url@
    } else if d.sec_token@.len() == 0 {
        unsigned_url(d)
    } else {
        unsigned_url(d) + "&timestamp="@ + decimal(timestamp) + "&sign="@ + url_encoded_of(
            signature(timestamp, d.sec_token@),
        )
    }
}

/// The base URL followed by the separator that the credential parameter
/// needs: nothing after a trailing `?`, `&` after an existing query that does
/// not already end in `&`, `?` where there is no query yet.
pub fn join_query(url: &str) -> (r: String)
    ensures
        r@ == query_base(url@),
{
    let n = url.unicode_len();
    let mut has_query = false;
    let mut i: usize = 0;
    while i < n
        invariant
            n == url@.len(),
            i <= n,
            has_query == (exists|j: int| 0 <= j < i && url@[j] == '?'),
        decreases n - i,
    {
        if url.get_char(i) == '?' {
            has_query = true;
        }
        i = i + 1;
    }
    let ends_in_question = n > 0 && url.get_char(n - 1) == '?';
    let ends_in_ampersand = n > 0 && url.get_char(n - 1) == '&';
    let mut out = url.to_owned();
    if ends_in_question {
    } else if has_query {
        if !ends_in_ampersand {
            out.append("&");
        }
    } else {
        out.append("?");
    }
    out
}

fn push_digit(out: &mut String, d: u128)
    requires
        d < 10,
    ensures
        final(out)@ == old(out)@ + digit_text(d as nat),
{
    if d == 0 {
        out.append("0");
    } else if d == 1 {
        out.append("1");
    } else if d == 2 {
        out.append("2");
    } else if d == 3 {
        out.append("3");
    } else if d == 4 {
        out.append("4");
    } else if d == 5 {
        out.append("5");
    } else if d == 6 {
        out.append("6");
    } else if d == 7 {
        out.append("7");
    } else if d == 8 {
        out.append("8");
    } else {
        out.append("9");
    }
}

fn push_decimal(out: &mut String, n: u128)
    ensures
        final(out)@ == old(out)@ + decimal(n as nat),
    decreases n,
{
    if n >= 10 {
        push_decimal(out, n / 10);
    }
    push_digit(out, n % 10);
    proof {
        if n >= 10 {
            assert(final(out)@ =~= old(out)@ + decimal(n as nat));
        }
    }
}

/// The decimal notation of `n`.
pub fn decimal_string(n: u128) -> (r: String)
    ensures
        r@ == decimal(n as nat),
{
    let mut out = String::new();
    push_decimal(&mut out, n);
    assert(out@ =~= decimal(n as nat));
    out
}

/// The base64 HMAC-SHA256 signature of a request made at `timestamp`
/// (milliseconds since the epoch) under `secret`, before URL-encoding: 44
/// characters of the standard base64 alphabet, the encoding of 32 bytes.
pub fn signature_at(secret: &str, timestamp: u128) -> (r: String)
    ensures
        r@ == signature(timestamp as nat, secret@),
        r@.len() == 44,
        forall|i: int| 0 <= i < r@.len() ==> is_base64_char(#[trigger] r@[i]),
{
    let mut message = decimal_string(timestamp);
    message.append("\n");
    message.append(secret);
    let digest = match hmac_sha256(secret.as_bytes(), message.as_str().as_bytes()) {
        Some(t) => t,
        None => {
            proof {
                assert(false);
            }
            Vec::new()
        },
    };
    base64_encode(digest.as_slice())
}

/// The base URL joined with the credential parameter, whose value
/// `encoded_token` is already URL-encoded.
pub fn credential_url(base: &str, provider: DingTalkType, encoded_token: &str) -> (r: String)
    ensures
        r@ == query_base(base@) + credential_key(provider) + encoded_token@,
{
    let mut url = join_query(base);
    match provider {
        DingTalkType::DingTalk => url.append("access_token="),
        DingTalkType::WeChatWork => url.append("key="),
    }
    url.append(encoded_token);
    url
}

/// `url` followed by the `timestamp` and `sign` parameters, where
/// `encoded_sign` is the signature already URL-encoded.
pub fn append_signature(url: String, timestamp: u128, encoded_sign: &str) -> (r: String)
    ensures
        r@ == url@ + "&timestamp="@ + decimal(timestamp as nat) + "&sign="@ + encoded_sign@,
{
    let stamp = decimal_string(timestamp);
    let mut url = url;
    url.append("&timestamp=");
    url.append(stamp.as_str());
    url.append("&sign=");
    url.append(encoded_sign);
    url
}

impl DingTalk {
    /// The destination of a send made at `timestamp` (milliseconds since the
    /// epoch). When the request is signed, its signature is 44 characters of
    /// the standard base64 alphabet.
    pub fn signed_url_at(&self, timestamp: u128) -> (r: String)
        ensures
            r@ == destination(*self, timestamp as nat),
            is_signed(*self) ==> signature(timestamp as nat, self.sec_token@).len() == 44,
            is_signed(*self) ==> forall|i: int|
                0 <= i < signature(timestamp as nat, self.sec_token@).len() ==> is_base64_char(
                    #[trigger] signature(timestamp as nat, self.sec_token@)[i],
                ),
    {
        if !self.direct_url.as_str().is_empty() {
            return self.direct_url.clone();
        }
        let token = url_encode(self.access_token.as_str());
        let url = credential_url(self.default_webhook_url.as_str(), self.dingtalk_type, token.as_str());
        if self.sec_token.as_str().is_empty() {
            return url;
        }
        let sign = signature_at(self.sec_token.as_str(), timestamp);
        let encoded_sign = url_encode(sign.as_str());
        append_signature(url, timestamp, encoded_sign.as_str())
    }

    /// The destination of a send made now. The clock is read only for a
    /// signed request; a clock that reads earlier than the epoch is a signing
    /// error, since no timestamp can be signed.
    pub fn generate_signed_url(&self) -> (r: Result<String, DingTalkError>)
        ensures
            !is_signed(*self) ==> r is Ok && r->Ok_0@ == destination(*self, 0),
            r matches Ok(u) ==> exists|t: u128| u@ == destination(*self, t as nat),
            r matches Err(e) ==> e == DingTalkError::Signing && is_signed(*self),
    {
        if !self.direct_url.as_str().is_empty() || self.sec_token.as_str().is_empty() {
            return Ok(self.signed_url_at(0));
        }
        let now = match since_epoch() {
            Ok(d) => d.as_millis(),
            Err(_) => return Err(DingTalkError::Signing),
        };
        let u = self.signed_url_at(now);
        assert(u@ == destination(*self, now as nat));
        Ok(u)
    }
}

pub open spec fn is_digit(c: char) -> bool {
    '0' <= c && c <= '9'
}

proof fn lemma_digit_text(d: nat)
    ensures
        digit_text(d).len() == 1,
        is_digit(digit_text(d)[0]),
        d < 10 ==> digit_text(d)[0] as int == '0' as int + d,
{
    reveal_strlit("0");
    reveal_strlit("1");
    reveal_strlit("2");
    reveal_strlit("3");
    reveal_strlit("4");
    reveal_strlit("5");
    reveal_strlit("6");
    reveal_strlit("7");
    reveal_strlit("8");
    reveal_strlit("9");
}

proof fn lemma_decimal_digits(n: nat)
    ensures
        decimal(n).len() >= 1,
        decimal(n).len() == 1 <==> n < 10,
        forall|i: int| 0 <= i < decimal(n).len() ==> is_digit(#[trigger] decimal(n)[i]),
    decreases n,
{
    lemma_digit_text(n % 10);
    lemma_digit_text(n);
    if n >= 10 {
        lemma_decimal_digits(n / 10);
        let a = decimal(n / 10);
        let b = digit_text(n % 10);
        assert forall|i: int| 0 <= i < decimal(n).len() implies is_digit(#[trigger] decimal(n)[i]) by {
            if i < a.len() {
                assert(decimal(n)[i] == a[i]);
            } else {
                assert(decimal(n)[i] == b[i - a.len()]);
            }
        }
    }
}

proof fn lemma_decimal_injective(a: nat, b: nat)
    requires
        decimal(a) == decimal(b),
    ensures
        a == b,
    decreases a + b,
{
    lemma_decimal_digits(a);
    lemma_decimal_digits(b);
    lemma_digit_text(a % 10);
    lemma_digit_text(b % 10);
    if a < 10 && b < 10 {
        lemma_digit_text(a);
        lemma_digit_text(b);
    } else if a >= 10 && b >= 10 {
        let da = decimal(a);
        let pa = decimal(a / 10);
        let pb = decimal(b / 10);
        lemma_decimal_digits(a / 10);
        lemma_decimal_digits(b / 10);
        assert(da.len() == pa.len() + 1);
        assert(da.last() == digit_text(a % 10)[0]);
        assert(da.last() == digit_text(b % 10)[0]);
        assert(pa =~= da.subrange(0, da.len() - 1));
        assert(pb =~= da.subrange(0, da.len() - 1));
        lemma_decimal_injective(a / 10, b / 10);
    }
}

/// Two sends at different timestamps sign different texts under the same
/// secret: the signed text starts with the timestamp's decimal notation,
/// which a newline ends.
pub proof fn lemma_sign_input_distinct(t1: nat, t2: nat, secret: Seq<char>)
    requires
        t1 != t2,
    ensures
        sign_input(t1, secret) != sign_input(t2, secret),
{
    reveal_strlit("\n");
    let d1 = decimal(t1);
    let d2 = decimal(t2);
    lemma_decimal_digits(t1);
    lemma_decimal_digits(t2);
    if sign_input(t1, secret) == sign_input(t2, secret) {
        let s = sign_input(t1, secret);
        if d1.len() < d2.len() {
            assert(s[d1.len() as int] == '\n');
            assert(sign_input(t2, secret)[d1.len() as int] == d2[d1.len() as int]);
        } else if d2.len() < d1.len() {
            assert(s[d2.len() as int] == '\n');
            assert(sign_input(t1, secret)[d2.len() as int] == d1[d2.len() as int]);
        } else {
            assert(d1 =~= s.subrange(0, d1.len() as int));
            assert(d2 =~= sign_input(t2, secret).subrange(0, d2.len() as int));
            lemma_decimal_injective(t1, t2);
        }
    }
}

/// The query joiner: a base URL ending in `?` takes the credential parameter
/// directly; one that already holds a query and ends in neither `?` nor `&`
/// takes `&` first; one without a query takes `?` first.
pub proof fn lemma_query_joiner(url: Seq<char>)
    ensures
        url.len() > 0 && url.last() == '?' ==> query_base(url) == url,
        url.contains('?') && url.last() != '?' && url.last() != '&' ==> query_base(url) == url
            + "&"@,
        url.contains('?') && url.last() == '&' ==> query_base(url) == url,
        !url.contains('?') ==> query_base(url) == url + "?"@,
{
}

/// A configured direct URL is the destination as it stands, whatever the
/// token, the secret, the provider and the time.
pub proof fn lemma_direct_url_short_circuits(d: DingTalk, timestamp: nat)
    requires
        d.direct_url@.len() > 0,
    ensures
        destination(d, timestamp) == d.direct_url@,
{
}

/// Without a secret and a direct URL the destination is the joined base URL
/// followed by the credential parameter, and does not depend on the time.
pub proof fn lemma_unsigned_destination(d: DingTalk, t1: nat, t2: nat)
    requires
        d.direct_url@.len() == 0,
        d.sec_token@.len() == 0,
    ensures
        destination(d, t1) == query_base(d.default_webhook_url@) + credential_key(d.dingtalk_type)
            + url_encoded_of(d.access_token@),
        destination(d, t1) == destination(d, t2),
{
}

proof fn lemma_percent_encoded_plain(b: Seq<u8>)
    requires
        forall|i: int| 0 <= i < b.len() ==> is_unreserved_byte(#[trigger] b[i]),
    ensures
        percent_encoded(b) == b.map_values(|x: u8| x as char),
    decreases b.len(),
{
    if b.len() > 0 {
        lemma_percent_encoded_plain(b.drop_last());
        assert(b.map_values(|x: u8| x as char) =~= b.drop_last().map_values(|x: u8| x as char)
            + seq![b.last() as char]);
    } else {
        assert(b.map_values(|x: u8| x as char) =~= Seq::<char>::empty());
    }
}

/// An ASCII text made only of letters, digits, `-`, `.`, `_` and `~` is
/// URL-encoded as itself.
pub proof fn lemma_plain_text_unchanged(s: Seq<char>)
    requires
        vstd::utf8::is_ascii_chars(s),
        forall|i: int| 0 <= i < s.len() ==> is_unreserved_byte((#[trigger] s[i]) as u8),
    ensures
        url_encoded_of(s) == s,
{
    vstd::utf8::is_ascii_chars_encode_utf8(s);
    let b = encode_utf8(s);
    assert forall|i: int| 0 <= i < b.len() implies is_unreserved_byte(#[trigger] b[i]) by {
        assert(s[i] as u8 == b[i]);
    }
    lemma_percent_encoded_plain(b);
    assert forall|i: int| 0 <= i < s.len() implies (b[i] as char) == s[i] by {
        assert(s[i] as u8 == b[i]);
    }
    assert(b.map_values(|x: u8| x as char) =~= s);
}

} // verus!
