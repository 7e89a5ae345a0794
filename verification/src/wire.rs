//! Text encodings that other crates provide: percent encoding, Base64 and UUIDs.

use vstd::prelude::*;

verus! {

/// A byte that stands for itself in a percent-encoded text.
pub open spec fn is_unreserved(b: u8) -> bool {
    ||| 0x30 <= b <= 0x39
    ||| 0x41 <= b <= 0x5a
    ||| 0x61 <= b <= 0x7a
    ||| b == 0x2d
    ||| b == 0x2e
    ||| b == 0x5f
    ||| b == 0x7e
}

/// A hexadecimal digit, with a capital letter.
pub open spec fn hex_digit(d: int) -> char {
    if d < 10 {
        (48 + d) as u8 as char
    } else {
        (55 + d) as u8 as char
    }
}

/// Bytes, each as itself or as a percent sign and its two hexadecimal digits.
pub open spec fn percent_encoded_bytes(bytes: Seq<u8>) -> Seq<char>
    decreases bytes.len(),
{
    if bytes.len() == 0 {
        Seq::empty()
    } else {
        let b = bytes.last();
        percent_encoded_bytes(bytes.drop_last()) + (if is_unreserved(b) {
            seq![b as char]
        } else {
            seq!['%', hex_digit(b as int / 16), hex_digit(b as int % 16)]
        })
    }
}

/// A text, percent-encoded byte by byte.
pub open spec fn percent_encoded(s: Seq<char>) -> Seq<char> {
    percent_encoded_bytes(vstd::utf8::encode_utf8(s))
}

/// Calls `urlencoding::encode`, which percent-encodes every byte of the UTF-8 form but the ASCII
/// letters and digits and `-`, `.`, `_` and `~`, with capital hexadecimal digits.
#[verifier::external_body]
pub(crate) fn percent_encode(s: &str) -> (r: String)
    ensures
        r@ == percent_encoded(s@),
{
    urlencoding::encode(s).into_owned()
}

/// A digit of Base64: the capital letters, the small ones, the decimal digits, `+` and `/`.
pub open spec fn base64_digit(d: int) -> char {
    if d < 26 {
        (65 + d) as u8 as char
    } else if d < 52 {
        (71 + d) as u8 as char
    } else if d < 62 {
        (d - 4) as u8 as char
    } else if d == 62 {
        '+'
    } else {
        '/'
    }
}

/// A byte of a sequence; zero behind its end.
pub open spec fn byte_or_zero(bytes: Seq<u8>, i: int) -> int {
    if i < bytes.len() {
        bytes[i] as int
    } else {
        0
    }
}

/// The `k`th group of six bits: each three bytes are four such groups.
pub open spec fn six_bits(bytes: Seq<u8>, k: int) -> int {
    let at = 3 * (k / 4);
    let three = byte_or_zero(bytes, at) * 65536 + byte_or_zero(bytes, at + 1) * 256 + byte_or_zero(
        bytes,
        at + 2,
    );
    if k % 4 == 0 {
        three / 262144
    } else if k % 4 == 1 {
        three / 4096 % 64
    } else if k % 4 == 2 {
        three / 64 % 64
    } else {
        three % 64
    }
}

/// Bytes in Base64: a digit for each six bits that are begun, filled up with `=` to a multiple of
/// four.
pub open spec fn base64_text(bytes: Seq<u8>) -> Seq<char> {
    Seq::new(
        (4 * ((bytes.len() + 2) / 3)) as nat,
        |k: int|
            if k < (4 * bytes.len() + 2) / 3 {
                base64_digit(six_bits(bytes, k))
            } else {
                '='
            },
    )
}

/// Calls `encode` of `base64::engine::general_purpose::STANDARD`, which encodes bytes in Base64 with
/// the standard alphabet and with padding.
#[verifier::external_body]
pub(crate) fn base64_encode(bytes: &[u8]) -> (r: String)
    ensures
        r@ == base64_text(bytes@),
{
    base64::Engine::encode(&base64::engine::general_purpose::STANDARD, bytes)
}

/// The text is a UUID without dashes: 32 hexadecimal digits, with small letters.
pub open spec fn is_simple_uuid(s: Seq<char>) -> bool {
    s.len() == 32 && forall|i: int|
        0 <= i < s.len() ==> ('0' <= #[trigger] s[i] <= '9') || ('a' <= s[i] <= 'f')
}

/// Calls `uuid::Uuid::new_v4` and shows the result without dashes. Each call gives another one.
#[verifier::external_body]
pub(crate) fn random_simple_uuid() -> (s: String)
    ensures
        is_simple_uuid(s@),
{
    uuid::Uuid::new_v4().simple().to_string()
}

/// The text is a UUID as it is usually shown: hexadecimal digits with small letters, in groups of
/// 8, 4, 4, 4 and 12 with a dash between two groups.
pub open spec fn is_uuid(s: Seq<char>) -> bool {
    s.len() == 36 && forall|i: int|
        0 <= i < s.len() ==> if i == 8 || i == 13 || i == 18 || i == 23 {
            #[trigger] s[i] == '-'
        } else {
            ('0' <= s[i] <= '9') || ('a' <= s[i] <= 'f')
        }
}

/// Calls `uuid::Uuid::new_v4` and shows the result with dashes. Each call gives another one.
#[verifier::external_body]
fn random_uuid() -> (s: String)
    ensures
        is_uuid(s@),
{
    uuid::Uuid::new_v4().to_string()
}

/// A new random id.
pub fn new_id() -> (id: String)
    ensures
        is_uuid(id@),
{
    random_uuid()
}

/// An id that was given, else a new random one.
pub fn given_or_new_id(given: Option<String>) -> (id: String)
    ensures
        match given {
            Some(g) => id == g,
            None => is_uuid(id@),
        },
{
    match given {
        Some(g) => g,
        None => random_uuid(),
    }
}

/// What `uuid::Uuid::parse_str` reads from a text: the number of the UUID, or the text of the error
/// with which it refuses.
pub uninterp spec fn uuid_read(s: Seq<char>) -> std::result::Result<u128, Seq<char>>;

/// Calls `uuid::Uuid::parse_str`, whose result depends on the text alone.
#[verifier::external_body]
pub(crate) fn parse_uuid(s: &str) -> (r: std::result::Result<u128, String>)
    ensures
        match r {
            Ok(n) => uuid_read(s@) == std::result::Result::<u128, Seq<char>>::Ok(n),
            Err(message) => uuid_read(s@) == std::result::Result::<u128, Seq<char>>::Err(message@),
        },
{
    uuid::Uuid::parse_str(s).map(|id| id.as_u128()).map_err(|error| error.to_string())
}

/// Calls `uuid::Uuid::new_v4` and gives the number of the result. Each call gives another one; all
/// of them say that they are random, by the digit four in the place for the version, and that they
/// are laid out as usual, by a digit from eight to eleven in the place for the variant.
#[verifier::external_body]
pub(crate) fn random_uuid_number() -> (n: u128)
    ensures
        n / 0x1000_0000_0000_0000_0000 % 16 == 4,
        8 <= n / 0x1000_0000_0000_0000 % 16 <= 11,
{
    uuid::Uuid::new_v4().as_u128()
}

// ---------------------------------------------------------------------------
// What encoded texts hold
// ---------------------------------------------------------------------------
/// The value of a hexadecimal digit.
pub open spec fn hex_value(c: char) -> int {
    if '0' <= c <= '9' {
        c as int - '0' as int
    } else {
        c as int - 'A' as int + 10
    }
}

/// A byte that is a letter, a digit or one of `-._~` stays as it is; every other byte is a percent sign
/// and its value in two hexadecimal digits.
pub proof fn law_bytes_are_percent_encoded(bytes: Seq<u8>, b: u8)
    ensures
        percent_encoded_bytes(Seq::<u8>::empty()).len() == 0,
        is_unreserved(b) <==> ('0' as u8 <= b <= '9' as u8) || ('A' as u8 <= b <= 'Z' as u8) || (
        'a' as u8 <= b <= 'z' as u8) || b == '-' as u8 || b == '.' as u8 || b == '_' as u8 || b
            == '~' as u8,
        is_unreserved(b) ==> percent_encoded_bytes(bytes.push(b)) == percent_encoded_bytes(
            bytes,
        ).push(b as char),
        !is_unreserved(b) ==> {
            let all = percent_encoded_bytes(bytes.push(b));
            let n = percent_encoded_bytes(bytes).len() as int;
            &&& all.len() == n + 3
            &&& all.take(n) == percent_encoded_bytes(bytes)
            &&& all[n] == '%'
            &&& hex_value(all[n + 1]) * 16 + hex_value(all[n + 2]) == b
        },
{
    assert(bytes.push(b).drop_last() =~= bytes);
    let all = percent_encoded_bytes(bytes.push(b));
    let n = percent_encoded_bytes(bytes).len() as int;
    assert(all.take(n) =~= percent_encoded_bytes(bytes));
    assert(percent_encoded_bytes(bytes) + seq![b as char] =~= percent_encoded_bytes(bytes).push(
        b as char,
    ));
    lemma_hex_value(b as int / 16);
    lemma_hex_value(b as int % 16);
}

proof fn lemma_hex_value(d: int)
    requires
        0 <= d < 16,
    ensures
        hex_value(hex_digit(d)) == d,
{
}

/// The six bits for which a sign stands.
pub open spec fn base64_value(c: char) -> int {
    if 'A' <= c <= 'Z' {
        c as int - 'A' as int
    } else if 'a' <= c <= 'z' {
        c as int - 'a' as int + 26
    } else if '0' <= c <= '9' {
        c as int - '0' as int + 52
    } else if c == '+' {
        62
    } else if c == '/' {
        63
    } else {
        0
    }
}

/// The 24 bits of four signs.
pub open spec fn base64_group(text: Seq<char>, g: int) -> int {
    base64_value(text[4 * g]) * 262144 + base64_value(text[4 * g + 1]) * 4096 + base64_value(
        text[4 * g + 2],
    ) * 64 + base64_value(text[4 * g + 3])
}

proof fn lemma_base64_value(d: int)
    requires
        0 <= d < 64,
    ensures
        base64_value(base64_digit(d)) == d,
{
}

/// Each byte stands in the text that it was encoded into: three bytes in four signs, the first byte in the
/// highest bits. The text has whole groups of four signs.
pub proof fn law_bytes_stand_in_base64(bytes: Seq<u8>, i: int)
    requires
        0 <= i < bytes.len(),
    ensures
        base64_text(bytes).len() % 4 == 0,
        base64_text(bytes).len() == 4 * ((bytes.len() + 2) / 3),
        i % 3 == 0 ==> base64_group(base64_text(bytes), i / 3) / 65536 == bytes[i],
        i % 3 == 1 ==> base64_group(base64_text(bytes), i / 3) / 256 % 256 == bytes[i],
        i % 3 == 2 ==> base64_group(base64_text(bytes), i / 3) % 256 == bytes[i],
{
    let text = base64_text(bytes);
    let g = i / 3;
    let b0 = byte_or_zero(bytes, 3 * g);
    let b1 = byte_or_zero(bytes, 3 * g + 1);
    let b2 = byte_or_zero(bytes, 3 * g + 2);
    let three = b0 * 65536 + b1 * 256 + b2;
    lemma_three_bytes(b0, b1, b2);
    assert(4 * g + 3 < text.len()) by {
        assert(3 * g <= i);
    }
    lemma_sign(bytes, g, 0);
    lemma_sign(bytes, g, 1);
    lemma_sign(bytes, g, 2);
    lemma_sign(bytes, g, 3);
    assert(base64_group(text, g) == three);
    assert(i == 3 * g + i % 3);
}

/// The sign at a place of a group stands for its six bits of the group's bytes.
proof fn lemma_sign(bytes: Seq<u8>, g: int, r: int)
    requires
        0 <= g,
        3 * g < bytes.len(),
        0 <= r < 4,
    ensures
        ({
            let three = byte_or_zero(bytes, 3 * g) * 65536 + byte_or_zero(bytes, 3 * g + 1) * 256
                + byte_or_zero(bytes, 3 * g + 2);
            base64_value(base64_text(bytes)[4 * g + r]) == (if r == 0 {
                three / 262144
            } else if r == 1 {
                three / 4096 % 64
            } else if r == 2 {
                three / 64 % 64
            } else {
                three % 64
            })
        }),
{
    let k = 4 * g + r;
    assert(k / 4 == g && k % 4 == r);
    lemma_three_bytes(
        byte_or_zero(bytes, 3 * g),
        byte_or_zero(bytes, 3 * g + 1),
        byte_or_zero(bytes, 3 * g + 2),
    );
    lemma_base64_value(six_bits(bytes, k));
    let n = bytes.len() as int;
    if k >= (4 * n + 2) / 3 {
        assert(r == 3 || 3 * g + 1 >= n);
    }
}

/// Three bytes have 24 bits, of which four times six are taken.
proof fn lemma_three_bytes(b0: int, b1: int, b2: int)
    requires
        0 <= b0 < 256,
        0 <= b1 < 256,
        0 <= b2 < 256,
    ensures
        ({
            let three = b0 * 65536 + b1 * 256 + b2;
            &&& 0 <= three < 16777216
            &&& three / 262144 * 262144 + three / 4096 % 64 * 4096 + three / 64 % 64 * 64 + three
                % 64 == three
            &&& three / 65536 == b0
            &&& three / 256 % 256 == b1
            &&& three % 256 == b2
            &&& 0 <= three / 262144 < 64
        }),
{
    let three = b0 * 65536 + b1 * 256 + b2;
    let one = three / 64;
    let two = one / 64;
    vstd::arithmetic::div_mod::lemma_div_denominator(three, 64, 64);
    vstd::arithmetic::div_mod::lemma_div_denominator(three, 4096, 64);
    vstd::arithmetic::div_mod::lemma_fundamental_div_mod(three, 64);
    vstd::arithmetic::div_mod::lemma_fundamental_div_mod(one, 64);
    vstd::arithmetic::div_mod::lemma_fundamental_div_mod(two, 64);
    vstd::arithmetic::div_mod::lemma_fundamental_div_mod_converse(
        three,
        65536,
        b0,
        b1 * 256 + b2,
    );
    vstd::arithmetic::div_mod::lemma_fundamental_div_mod_converse(three, 256, b0 * 256 + b1, b2);
    vstd::arithmetic::div_mod::lemma_fundamental_div_mod_converse(b0 * 256 + b1, 256, b0, b1);
}

/// A text is filled up to whole groups: with two signs after one byte, with one after two.
pub proof fn law_base64_is_filled_up(bytes: Seq<u8>)
    requires
        bytes.len() > 0,
    ensures
        bytes.len() % 3 == 0 ==> base64_text(bytes).last() != '=',
        bytes.len() % 3 == 1 ==> base64_text(bytes).last() == '=' && base64_text(
            bytes,
        )[base64_text(bytes).len() - 2] == '=' && base64_text(bytes)[base64_text(bytes).len() - 3]
            != '=',
        bytes.len() % 3 == 2 ==> base64_text(bytes).last() == '=' && base64_text(
            bytes,
        )[base64_text(bytes).len() - 2] != '=',
{
    let text = base64_text(bytes);
    assert forall|k: int| 0 <= k < text.len() && k < (4 * bytes.len() + 2) / 3 implies (
    #[trigger] text[k]) != '=' by {
        let at = 3 * (k / 4);
        let three = byte_or_zero(bytes, at) * 65536 + byte_or_zero(bytes, at + 1) * 256
            + byte_or_zero(bytes, at + 2);
        assert(0 <= three < 16777216);
        assert(0 <= six_bits(bytes, k) < 64);
        assert(base64_digit(six_bits(bytes, k)) != '=');
    }
}

/// The two shapes of an id: 32 hexadecimal digits in small letters, alone or with a dash after the
/// eighth, the twelfth, the sixteenth and the twentieth.
pub proof fn law_shapes_of_ids(s: Seq<char>, i: int)
    ensures
        is_simple_uuid(s) ==> s.len() == 32,
        is_uuid(s) ==> s.len() == 36 && s[8] == '-' && s[13] == '-' && s[18] == '-' && s[23] == '-',
        is_simple_uuid(s) && 0 <= i < 32 ==> ('0' <= s[i] <= '9') || ('a' <= s[i] <= 'f'),
        is_uuid(s) && 0 <= i < 36 && i != 8 && i != 13 && i != 18 && i != 23 ==> ('0' <= s[i]
            <= '9') || ('a' <= s[i] <= 'f'),
{
}

/// The bits of the last group that no byte fills are zero.
pub proof fn law_spare_bits_are_zero(bytes: Seq<u8>)
    requires
        bytes.len() > 0,
    ensures
        bytes.len() % 3 == 1 ==> base64_group(base64_text(bytes), (bytes.len() - 1) / 3) % 65536
            == 0,
        bytes.len() % 3 == 2 ==> base64_group(base64_text(bytes), (bytes.len() - 1) / 3) % 256 == 0,
{
    let g = (bytes.len() - 1) / 3;
    let b0 = byte_or_zero(bytes, 3 * g);
    let b1 = byte_or_zero(bytes, 3 * g + 1);
    let b2 = byte_or_zero(bytes, 3 * g + 2);
    lemma_three_bytes(b0, b1, b2);
    lemma_sign(bytes, g, 0);
    lemma_sign(bytes, g, 1);
    lemma_sign(bytes, g, 2);
    lemma_sign(bytes, g, 3);
    let three = b0 * 65536 + b1 * 256 + b2;
    assert(base64_group(base64_text(bytes), g) == three);
    if bytes.len() % 3 == 1 {
        assert(three == b0 * 65536);
        vstd::arithmetic::div_mod::lemma_fundamental_div_mod_converse(three, 65536, b0, 0);
    }
}

} // verus!
