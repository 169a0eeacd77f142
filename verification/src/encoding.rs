//! Byte-level text codecs shared across the engine: lower-case hexadecimal,
//! percent-encoding (form style), and decimal integers.

use vstd::prelude::*;

verus! {

/// The characters of an ASCII byte sequence, one char per byte.
pub open spec fn ascii_chars(s: Seq<u8>) -> Seq<char> {
    s.map_values(|b: u8| b as char)
}

/// Relies on `String::from_utf8`: bytes below 128 decode to exactly the
/// characters with the same code points.
#[verifier::external_body]
pub fn ascii_to_string(bytes: Vec<u8>) -> (r: String)
    requires
        forall|i: int| 0 <= i < bytes@.len() ==> bytes@[i] < 128,
    ensures
        r@ == ascii_chars(bytes@),
{
    String::from_utf8(bytes).unwrap_or_default()
}

/// Relies on `String::from_utf8`: succeeds exactly on valid UTF-8 and returns
/// the string whose byte encoding is the input.
#[verifier::external_body]
pub fn bytes_into_string(bytes: Vec<u8>) -> (r: Result<String, ()>)
    ensures
        r matches Ok(s) ==> vstd::utf8::encode_utf8(s@) == bytes@,
        vstd::utf8::valid_utf8(bytes@) ==> r is Ok,
{
    String::from_utf8(bytes).map_err(|_| ())
}

// ------------------------------------------------------------------
// Hexadecimal
// ------------------------------------------------------------------

/// Lower-case hex digit, as an ASCII byte, for a value below 16.
pub open spec fn hex_digit(n: u8) -> u8
    recommends
        n < 16,
{
    if n < 10 {
        (48 + n) as u8
    } else {
        (87 + n) as u8
    }
}

/// Lower-case hex encoding: two digits per byte, high nibble first.
pub open spec fn hex_lower(bytes: Seq<u8>) -> Seq<u8>
    decreases bytes.len(),
{
    if bytes.len() == 0 {
        seq![]
    } else {
        seq![hex_digit(bytes[0] / 16), hex_digit(bytes[0] % 16)] + hex_lower(bytes.drop_first())
    }
}

/// Hex output consists of digit and lower-case letter bytes (so it is
/// ASCII).
pub proof fn hex_lower_is_ascii(bytes: Seq<u8>)
    ensures
        forall|i: int| 0 <= i < hex_lower(bytes).len()
            ==> (48 <= #[trigger] hex_lower(bytes)[i] <= 57 || 97 <= hex_lower(bytes)[i] <= 102),
        forall|i: int| 0 <= i < hex_lower(bytes).len() ==> #[trigger] hex_lower(bytes)[i] < 128,
    decreases bytes.len(),
{
    if bytes.len() > 0 {
        hex_lower_is_ascii(bytes.drop_first());
        let whole = hex_lower(bytes);
        assert forall|i: int| 0 <= i < whole.len()
            implies (48 <= #[trigger] whole[i] <= 57 || 97 <= whole[i] <= 102) by {
            if i >= 2 {
                assert(whole[i] == hex_lower(bytes.drop_first())[i - 2]);
            }
        }
    }
}

/// Encodes bytes as lower-case hex digits.
pub fn hex_encode(bytes: &[u8]) -> (r: Vec<u8>)
    ensures
        r@ == hex_lower(bytes@),
{
    let mut out: Vec<u8> = Vec::new();
    let mut i: usize = 0;
    proof {
        assert(bytes@.skip(0) =~= bytes@);
    }
    while i < bytes.len()
        invariant
            i <= bytes@.len(),
            hex_lower(bytes@) == out@ + hex_lower(bytes@.skip(i as int)),
        decreases bytes@.len() - i,
    {
        let b = bytes[i];
        let hi = if b / 16 < 10 { 48 + b / 16 } else { 87 + b / 16 };
        let lo = if b % 16 < 10 { 48 + b % 16 } else { 87 + b % 16 };
        out.push(hi);
        out.push(lo);
        proof {
            assert(bytes@.skip(i as int).drop_first() =~= bytes@.skip(i + 1));
        }
        i = i + 1;
    }
    proof {
        assert(bytes@.skip(i as int) =~= Seq::<u8>::empty());
        assert(out@ =~= hex_lower(bytes@));
    }
    out
}

/// Encodes bytes as a lower-case hex string.
pub fn hex_string(bytes: &[u8]) -> (r: String)
    ensures
        r@ == ascii_chars(hex_lower(bytes@)),
{
    let digits = hex_encode(bytes);
    proof {
        hex_lower_is_ascii(bytes@);
    }
    ascii_to_string(digits)
}

// ------------------------------------------------------------------
// Percent-encoding (form style: `+` decodes to a space)
// ------------------------------------------------------------------

/// Bytes that percent-encoding leaves as they are: ASCII letters, digits,
/// `-`, `.`, `_` and `~`.
pub open spec fn is_unreserved(b: u8) -> bool {
    (48 <= b <= 57) || (65 <= b <= 90) || (97 <= b <= 122) || b == 45 || b == 46 || b == 95
        || b == 126
}

/// Upper-case hex digit, as an ASCII byte, for a value below 16.
pub open spec fn hex_digit_upper(n: u8) -> u8
    recommends
        n < 16,
{
    if n < 10 {
        (48 + n) as u8
    } else {
        (55 + n) as u8
    }
}

/// A hex digit in either case.
pub open spec fn is_hex_byte(b: u8) -> bool {
    (48 <= b <= 57) || (65 <= b <= 70) || (97 <= b <= 102)
}

/// The value of a hex digit byte.
pub open spec fn hex_val(b: u8) -> u8
    recommends
        is_hex_byte(b),
{
    if 48 <= b <= 57 {
        (b - 48) as u8
    } else if 65 <= b <= 70 {
        (b - 55) as u8
    } else if 97 <= b <= 102 {
        (b - 87) as u8
    } else {
        0
    }
}

/// Percent-encoding of a single byte.
pub open spec fn pct_byte(b: u8) -> Seq<u8> {
    if is_unreserved(b) {
        seq![b]
    } else {
        seq![37u8, hex_digit_upper(b / 16), hex_digit_upper(b % 16)]
    }
}

/// Percent-encoding of a byte sequence.
pub open spec fn pct_encoded(s: Seq<u8>) -> Seq<u8>
    decreases s.len(),
{
    if s.len() == 0 {
        seq![]
    } else {
        pct_byte(s[0]) + pct_encoded(s.drop_first())
    }
}

/// Percent-decoding: `%XX` becomes a byte, `+` becomes a space, everything
/// else (including stray `%`) passes through unchanged.
pub open spec fn pct_decoded(s: Seq<u8>) -> Seq<u8>
    decreases s.len(),
{
    if s.len() == 0 {
        seq![]
    } else if s[0] == 37 && s.len() >= 3 && is_hex_byte(s[1]) && is_hex_byte(s[2]) {
        seq![(16 * hex_val(s[1]) + hex_val(s[2])) as u8] + pct_decoded(s.skip(3))
    } else if s[0] == 43 {
        seq![32u8] + pct_decoded(s.drop_first())
    } else {
        seq![s[0]] + pct_decoded(s.drop_first())
    }
}

/// Decoding inverts encoding: percent-encoding loses nothing.
pub proof fn pct_decoded_encoded(s: Seq<u8>)
    ensures
        pct_decoded(pct_encoded(s)) == s,
    decreases s.len(),
{
    if s.len() == 0 {
        assert(pct_decoded(pct_encoded(s)) =~= s);
    } else {
        let b = s[0];
        let enc = pct_encoded(s);
        pct_decoded_encoded(s.drop_first());
        if is_unreserved(b) {
            assert(enc.drop_first() =~= pct_encoded(s.drop_first()));
            assert(pct_decoded(enc) =~= seq![b] + pct_decoded(enc.drop_first()));
            assert(seq![b] + s.drop_first() =~= s);
        } else {
            assert(enc[0] == 37);
            assert(enc.len() >= 3);
            assert(is_hex_byte(hex_digit_upper(b / 16)));
            assert(is_hex_byte(hex_digit_upper(b % 16)));
            assert(hex_val(hex_digit_upper(b / 16)) == b / 16);
            assert(hex_val(hex_digit_upper(b % 16)) == b % 16);
            assert(16 * (b / 16) + b % 16 == b);
            assert(enc.skip(3) =~= pct_encoded(s.drop_first()));
            assert(pct_decoded(enc) =~= seq![b] + pct_decoded(enc.skip(3)));
            assert(seq![b] + s.drop_first() =~= s);
        }
    }
}

/// Percent-encodes a byte sequence.
pub fn pct_encode_bytes(input: &[u8]) -> (r: Vec<u8>)
    ensures
        r@ == pct_encoded(input@),
{
    let mut out: Vec<u8> = Vec::new();
    let mut i: usize = 0;
    proof {
        assert(input@.skip(0) =~= input@);
    }
    while i < input.len()
        invariant
            i <= input@.len(),
            pct_encoded(input@) == out@ + pct_encoded(input@.skip(i as int)),
        decreases input@.len() - i,
    {
        let b = input[i];
        let unreserved = (48 <= b && b <= 57) || (65 <= b && b <= 90) || (97 <= b && b <= 122)
            || b == 45 || b == 46 || b == 95 || b == 126;
        if unreserved {
            out.push(b);
        } else {
            out.push(37);
            let hi = b / 16;
            let lo = b % 16;
            out.push(if hi < 10 { 48 + hi } else { 55 + hi });
            out.push(if lo < 10 { 48 + lo } else { 55 + lo });
        }
        proof {
            assert(input@.skip(i as int).drop_first() =~= input@.skip(i + 1));
        }
        i = i + 1;
    }
    proof {
        assert(input@.skip(i as int) =~= Seq::<u8>::empty());
        assert(out@ =~= pct_encoded(input@));
    }
    out
}

/// Percent-decodes a byte sequence.
pub fn pct_decode_bytes(input: &[u8]) -> (r: Vec<u8>)
    ensures
        r@ == pct_decoded(input@),
{
    let mut out: Vec<u8> = Vec::new();
    let mut i: usize = 0;
    proof {
        assert(input@.skip(0) =~= input@);
    }
    while i < input.len()
        invariant
            i <= input@.len(),
            pct_decoded(input@) == out@ + pct_decoded(input@.skip(i as int)),
        decreases input@.len() - i,
    {
        let b = input[i];
        if b == 37 && input.len() - i > 2 && is_hex_byte_exec(input[i + 1])
            && is_hex_byte_exec(input[i + 2]) {
            let v = 16 * hex_val_exec(input[i + 1]) + hex_val_exec(input[i + 2]);
            out.push(v);
            proof {
                assert(input@.skip(i as int).skip(3) =~= input@.skip(i + 3));
            }
            i = i + 3;
        } else if b == 43 {
            out.push(32);
            proof {
                assert(input@.skip(i as int).drop_first() =~= input@.skip(i + 1));
            }
            i = i + 1;
        } else {
            out.push(b);
            proof {
                assert(input@.skip(i as int).drop_first() =~= input@.skip(i + 1));
            }
            i = i + 1;
        }
    }
    proof {
        assert(input@.skip(i as int) =~= Seq::<u8>::empty());
        assert(out@ =~= pct_decoded(input@));
    }
    out
}

/// Hex-digit test matching `is_hex_byte`.
fn is_hex_byte_exec(b: u8) -> (r: bool)
    ensures
        r == is_hex_byte(b),
{
    (48 <= b && b <= 57) || (65 <= b && b <= 70) || (97 <= b && b <= 102)
}

/// Hex-digit value matching `hex_val`.
fn hex_val_exec(b: u8) -> (r: u8)
    ensures
        r == hex_val(b),
        r < 16,
{
    if 48 <= b && b <= 57 {
        b - 48
    } else if 65 <= b && b <= 70 {
        b - 55
    } else if 97 <= b && b <= 102 {
        b - 87
    } else {
        0
    }
}

/// ASCII bytes (below 128) form valid UTF-8 on their own.
pub proof fn ascii_bytes_valid_utf8(s: Seq<u8>)
    requires
        forall|i: int| 0 <= i < s.len() ==> s[i] < 128,
    ensures
        vstd::utf8::valid_utf8(s),
    decreases s.len(),
{
    if s.len() > 0 {
        let b = s[0];
        assert(vstd::utf8::is_leading_byte_width_1(b));
        assert(b & 0x7F == b) by (bit_vector)
            requires
                b < 128,
        ;
        assert(vstd::utf8::valid_first_scalar(s));
        assert(vstd::utf8::pop_first_scalar(s) =~= s.drop_first());
        ascii_bytes_valid_utf8(s.drop_first());
    }
}

/// Percent-encoded output is ASCII.
pub proof fn pct_encoded_ascii(s: Seq<u8>)
    ensures
        forall|i: int| 0 <= i < pct_encoded(s).len() ==> #[trigger] pct_encoded(s)[i] < 128,
    decreases s.len(),
{
    if s.len() > 0 {
        pct_encoded_ascii(s.drop_first());
        let whole = pct_encoded(s);
        let head = pct_byte(s[0]);
        assert forall|i: int| 0 <= i < whole.len() implies #[trigger] whole[i] < 128 by {
            if i < head.len() {
                assert(whole[i] == head[i]);
            } else {
                assert(whole[i] == pct_encoded(s.drop_first())[i - head.len()]);
            }
        }
    }
}

/// Hex encoding yields two digits per byte.
pub proof fn hex_lower_len(bytes: Seq<u8>)
    ensures
        hex_lower(bytes).len() == 2 * bytes.len(),
    decreases bytes.len(),
{
    if bytes.len() > 0 {
        hex_lower_len(bytes.drop_first());
    }
}

/// Percent-encoding at most triples the length.
pub proof fn pct_encoded_len(s: Seq<u8>)
    ensures
        pct_encoded(s).len() <= 3 * s.len(),
    decreases s.len(),
{
    if s.len() > 0 {
        pct_encoded_len(s.drop_first());
    }
}

/// Powers of ten, for digit-count bounds.
pub open spec fn pow10(k: nat) -> nat
    decreases k,
{
    if k == 0 {
        1
    } else {
        10 * pow10((k - 1) as nat)
    }
}

/// A number below the k-th power of ten prints in at most k digits.
pub proof fn dec_digits_len(n: nat, k: nat)
    requires
        k >= 1,
        n < pow10(k),
    ensures
        dec_digits(n).len() <= k,
    decreases k,
{
    if n < 10 {
    } else {
        assert(pow10(k) == 10 * pow10((k - 1) as nat));
        dec_digits_len(n / 10, (k - 1) as nat);
    }
}

/// Any 64-bit value prints in at most twenty digits.
pub proof fn dec_digits_len_u64(n: u64)
    ensures
        dec_digits(n as nat).len() <= 20,
{
    assert(pow10(20) == 100000000000000000000) by {
        reveal_with_fuel(pow10, 21);
    }
    dec_digits_len(n as nat, 20);
}

/// Byte-for-byte equality of two slices.
pub fn bytes_eq(a: &[u8], b: &[u8]) -> (r: bool)
    ensures
        r == (a@ == b@),
{
    if a.len() != b.len() {
        proof {
            assert(a@.len() != b@.len());
        }
        return false;
    }
    let mut i: usize = 0;
    while i < a.len()
        invariant
            i <= a@.len(),
            a@.len() == b@.len(),
            forall|j: int| 0 <= j < i ==> a@[j] == b@[j],
        decreases a@.len() - i,
    {
        if a[i] != b[i] {
            return false;
        }
        i = i + 1;
    }
    proof {
        assert(a@ =~= b@);
    }
    true
}

/// Copies a byte slice into a fresh vector.
pub fn clone_bytes(a: &[u8]) -> (r: Vec<u8>)
    ensures
        r@ == a@,
{
    let mut out: Vec<u8> = Vec::new();
    let mut i: usize = 0;
    while i < a.len()
        invariant
            i <= a@.len(),
            out@ == a@.subrange(0, i as int),
        decreases a@.len() - i,
    {
        out.push(a[i]);
        proof {
            assert(out@ =~= a@.subrange(0, i + 1));
        }
        i = i + 1;
    }
    proof {
        assert(out@ =~= a@);
    }
    out
}

/// Equality of two strings, decided byte for byte.
pub fn str_eq(a: &str, b: &str) -> (r: bool)
    ensures
        r == (a@ == b@),
{
    let r = bytes_eq(a.as_bytes(), b.as_bytes());
    proof {
        if r {
            vstd::utf8::encode_utf8_decode_utf8(a@);
            vstd::utf8::encode_utf8_decode_utf8(b@);
        }
    }
    r
}

// ------------------------------------------------------------------
// Byte search
// ------------------------------------------------------------------

/// Index of the first occurrence of `b` in `s`; the length of `s` when `b`
/// does not occur.
pub open spec fn find_byte(s: Seq<u8>, b: u8) -> int
    decreases s.len(),
{
    if s.len() == 0 {
        0
    } else if s[0] == b {
        0
    } else {
        1 + find_byte(s.drop_first(), b)
    }
}

/// What `find_byte` returns: in range, nothing equal before it, and the
/// found position (when in range) holds `b`.
pub proof fn find_byte_props(s: Seq<u8>, b: u8)
    ensures
        0 <= find_byte(s, b) <= s.len(),
        find_byte(s, b) < s.len() ==> s[find_byte(s, b)] == b,
        forall|j: int| 0 <= j < find_byte(s, b) ==> s[j] != b,
    decreases s.len(),
{
    if s.len() > 0 && s[0] != b {
        find_byte_props(s.drop_first(), b);
        assert forall|j: int| 0 <= j < find_byte(s, b) implies s[j] != b by {
            if j > 0 {
                assert(s.drop_first()[j - 1] == s[j]);
            }
        }
    }
}

/// The characterization in the other direction: a position with nothing
/// equal before it, holding `b` or at the end, is the one `find_byte` gives.
pub proof fn find_byte_from_props(s: Seq<u8>, b: u8, k: int)
    requires
        0 <= k <= s.len(),
        forall|j: int| 0 <= j < k ==> s[j] != b,
        k == s.len() || s[k] == b,
    ensures
        find_byte(s, b) == k,
    decreases s.len(),
{
    if s.len() > 0 && k > 0 {
        assert(forall|j: int| 0 <= j < k - 1 ==> s.drop_first()[j] != b);
        find_byte_from_props(s.drop_first(), b, k - 1);
    }
}

/// Finds the first occurrence of `b` in `s` (the length when absent).
pub fn find_byte_exec(s: &[u8], b: u8) -> (r: usize)
    ensures
        r as int == find_byte(s@, b),
{
    let mut i: usize = 0;
    while i < s.len()
        invariant
            i <= s@.len(),
            forall|j: int| 0 <= j < i ==> s@[j] != b,
        decreases s@.len() - i,
    {
        if s[i] == b {
            proof {
                find_byte_from_props(s@, b, i as int);
            }
            return i;
        }
        i = i + 1;
    }
    proof {
        find_byte_from_props(s@, b, s@.len() as int);
    }
    i
}

// ------------------------------------------------------------------
// Decimal integers
// ------------------------------------------------------------------

/// The canonical decimal digits of a natural number, most significant first.
pub open spec fn dec_digits(n: nat) -> Seq<u8>
    decreases n,
{
    if n < 10 {
        seq![(48 + n) as u8]
    } else {
        dec_digits(n / 10) + seq![(48 + n % 10) as u8]
    }
}

/// All bytes are decimal digits and there is at least one.
pub open spec fn all_dec_digits(s: Seq<u8>) -> bool {
    s.len() > 0 && forall|i: int| 0 <= i < s.len() ==> 48 <= #[trigger] s[i] <= 57
}

/// The numeric value of a digit string (most significant first).
pub open spec fn dec_value(s: Seq<u8>) -> int
    decreases s.len(),
{
    if s.len() == 0 {
        0
    } else {
        dec_value(s.drop_last()) * 10 + (s.last() - 48)
    }
}

/// Printing then reading a natural number gives it back, and the printed
/// digits are digits without a leading zero (unless the number is zero).
pub proof fn dec_digits_value(n: nat)
    ensures
        dec_value(dec_digits(n)) == n,
        all_dec_digits(dec_digits(n)),
        dec_digits(n)[0] == 48 ==> n < 10,
    decreases n,
{
    if n < 10 {
        assert((48 + n) as u8 == 48 + n);
        assert(dec_digits(n) =~= seq![(48 + n) as u8]);
        assert(dec_digits(n).drop_last() =~= Seq::<u8>::empty());
        assert(dec_digits(n).last() == 48 + n);
        assert(dec_value(Seq::<u8>::empty()) == 0);
        assert(dec_value(dec_digits(n)) == n);
    } else {
        dec_digits_value(n / 10);
        let whole = dec_digits(n);
        assert(whole.drop_last() =~= dec_digits(n / 10));
        assert(whole.last() == (48 + n % 10) as u8);
        assert(dec_value(whole) == (n / 10) * 10 + n % 10);
        assert((n / 10) * 10 + n % 10 == n);
        assert(whole[0] == dec_digits(n / 10)[0]);
        assert(forall|i: int| 0 <= i < whole.len() ==> 48 <= #[trigger] whole[i] <= 57) by {
            assert(forall|i: int| 0 <= i < whole.len() - 1
                ==> #[trigger] whole[i] == dec_digits(n / 10)[i]);
        }
    }
}

/// Digit values grow with the digits: a prefix never exceeds the whole.
pub proof fn dec_value_prefix_bound(s: Seq<u8>, i: int)
    requires
        0 <= i <= s.len(),
        forall|j: int| 0 <= j < s.len() ==> 48 <= #[trigger] s[j] <= 57,
    ensures
        0 <= dec_value(s.take(i)) <= dec_value(s),
    decreases s.len() - i,
{
    if i == s.len() {
        assert(s.take(i) =~= s);
        dec_value_nonneg(s);
    } else {
        dec_value_prefix_bound(s, i + 1);
        assert(s.take(i + 1).drop_last() =~= s.take(i));
        assert(s.take(i + 1).last() == s[i]);
        dec_value_nonneg(s.take(i));
    }
}

/// A digit string has a nonnegative value.
pub proof fn dec_value_nonneg(s: Seq<u8>)
    requires
        forall|j: int| 0 <= j < s.len() ==> 48 <= #[trigger] s[j] <= 57,
    ensures
        dec_value(s) >= 0,
    decreases s.len(),
{
    if s.len() > 0 {
        assert(forall|j: int| 0 <= j < s.drop_last().len() ==> 48 <= #[trigger] s.drop_last()[j] <= 57);
        dec_value_nonneg(s.drop_last());
    }
}

/// Prints a number in decimal, matching `dec_digits`.
pub fn format_u64(n: u64) -> (r: Vec<u8>)
    ensures
        r@ == dec_digits(n as nat),
    decreases n,
{
    if n < 10 {
        let mut out: Vec<u8> = Vec::new();
        out.push(48 + (n as u8));
        proof {
            assert(out@ =~= dec_digits(n as nat));
        }
        out
    } else {
        let mut out = format_u64(n / 10);
        out.push(48 + ((n % 10) as u8));
        proof {
            assert(out@ =~= dec_digits((n as nat) / 10) + seq![(48 + (n as nat) % 10) as u8]);
        }
        out
    }
}

/// Reads a decimal digit string. Succeeds exactly on nonempty all-digit
/// strings whose value fits in a `u64`, and returns that value.
pub fn parse_u64(s: &[u8]) -> (r: Option<u64>)
    ensures
        r matches Some(v) ==> all_dec_digits(s@) && dec_value(s@) == v,
        r is None <==> !all_dec_digits(s@) || dec_value(s@) > u64::MAX,
{
    if s.len() == 0 {
        return None;
    }
    let mut acc: u64 = 0;
    let mut i: usize = 0;
    proof {
        assert(s@.take(0) =~= Seq::<u8>::empty());
    }
    while i < s.len()
        invariant
            0 < s@.len(),
            i <= s@.len(),
            acc == dec_value(s@.take(i as int)),
            forall|j: int| 0 <= j < i ==> 48 <= #[trigger] s@[j] <= 57,
        decreases s@.len() - i,
    {
        let b = s[i];
        if b < 48 || b > 57 {
            return None;
        }
        let d = (b - 48) as u64;
        if acc > (u64::MAX - d) / 10 {
            proof {
                assert(s@.take(i + 1).drop_last() =~= s@.take(i as int));
                assert(s@.take(i + 1).last() == s@[i as int]);
                assert(dec_value(s@.take(i + 1)) == acc * 10 + d);
                assert(acc * 10 + d > u64::MAX) by {
                    assert(acc >= (u64::MAX - d) / 10 + 1);
                    assert(((u64::MAX - d) / 10 + 1) * 10 >= u64::MAX - d + 1) by (nonlinear_arith);
                    assert(acc * 10 >= ((u64::MAX - d) / 10 + 1) * 10) by (nonlinear_arith)
                        requires
                            acc >= (u64::MAX - d) / 10 + 1,
                    ;
                }
                if all_dec_digits(s@) {
                    dec_value_prefix_bound(s@, i + 1);
                }
            }
            return None;
        }
        proof {
            assert(acc * 10 + d <= u64::MAX) by {
                assert(acc <= (u64::MAX - d) / 10);
                assert(((u64::MAX - d) / 10) * 10 <= u64::MAX - d) by (nonlinear_arith);
                assert(acc * 10 <= ((u64::MAX - d) / 10) * 10) by (nonlinear_arith)
                    requires
                        acc <= (u64::MAX - d) / 10,
                ;
            }
            assert(s@.take(i + 1).drop_last() =~= s@.take(i as int));
            assert(s@.take(i + 1).last() == s@[i as int]);
        }
        acc = acc * 10 + d;
        i = i + 1;
    }
    proof {
        assert(s@.take(i as int) =~= s@);
    }
    Some(acc)
}

} // verus!
