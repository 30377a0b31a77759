//! Small verified helpers shared across the crate: rendering integers
//! as text, byte-sequence comparison, and the trusted bridges from raw
//! bytes to `String`.

use vstd::prelude::*;

verus! {

use vstd::string::StringExecFns;

// ---------------------------------------------------------------------------
// Decimal and hexadecimal rendering
// ---------------------------------------------------------------------------

/// The character for one digit below 16: `0`..`9` then `a`..`f`.
pub open spec fn spec_digit_char(d: int) -> char {
    if d == 0 {
        '0'
    } else if d == 1 {
        '1'
    } else if d == 2 {
        '2'
    } else if d == 3 {
        '3'
    } else if d == 4 {
        '4'
    } else if d == 5 {
        '5'
    } else if d == 6 {
        '6'
    } else if d == 7 {
        '7'
    } else if d == 8 {
        '8'
    } else if d == 9 {
        '9'
    } else if d == 10 {
        'a'
    } else if d == 11 {
        'b'
    } else if d == 12 {
        'c'
    } else if d == 13 {
        'd'
    } else if d == 14 {
        'e'
    } else {
        'f'
    }
}

/// The decimal rendering of a non-negative integer, most significant
/// digit first, with no leading zeroes except for zero itself.
pub open spec fn spec_decimal_chars(n: int) -> Seq<char>
    decreases n,
{
    if n < 10 {
        seq![spec_digit_char(n)]
    } else {
        spec_decimal_chars(n / 10).push(spec_digit_char(n % 10))
    }
}

/// The hexadecimal rendering of a non-negative integer, lower case,
/// most significant digit first, without a prefix.
pub open spec fn spec_hex_chars(n: int) -> Seq<char>
    decreases n,
{
    if n < 16 {
        seq![spec_digit_char(n)]
    } else {
        spec_hex_chars(n / 16).push(spec_digit_char(n % 16))
    }
}

fn digit_str(d: u64) -> (r: &'static str)
    requires
        d < 16,
    ensures
        r@ =~= seq![spec_digit_char(d as int)],
{
    proof {
        reveal_strlit("0");
        reveal_strlit("1");
        reveal_strlit("2");
        reveal_strlit("3");
        reveal_strlit("4");
        reveal_strlit("5");
        reveal_strlit("6");
        reveal_strlit("7");
        reveal_strlit("8");
        reveal_strlit("9");
        reveal_strlit("a");
        reveal_strlit("b");
        reveal_strlit("c");
        reveal_strlit("d");
        reveal_strlit("e");
        reveal_strlit("f");
    }
    match d {
        0 => "0",
        1 => "1",
        2 => "2",
        3 => "3",
        4 => "4",
        5 => "5",
        6 => "6",
        7 => "7",
        8 => "8",
        9 => "9",
        10 => "a",
        11 => "b",
        12 => "c",
        13 => "d",
        14 => "e",
        _ => "f",
    }
}

/// Renders an integer in decimal.
pub fn decimal_string(n: u64) -> (r: String)
    ensures
        r@ == spec_decimal_chars(n as int),
    decreases n,
{
    if n < 10 {
        digit_str(n).to_owned()
    } else {
        let mut s = decimal_string(n / 10);
        s.append(digit_str(n % 10));
        assert(s@ =~= spec_decimal_chars(n as int));
        s
    }
}

/// Renders an integer in hexadecimal with a `0x` prefix, as diagnostics
/// print checksums.
pub fn hex_string(n: u64) -> (r: String)
    ensures
        r@ == seq!['0', 'x'] + spec_hex_chars(n as int),
{
    let mut s = prefix_0x();
    append_hex_digits(&mut s, n);
    s
}

fn prefix_0x() -> (r: String)
    ensures
        r@ =~= seq!['0', 'x'],
{
    proof {
        reveal_strlit("0x");
    }
    let s: String = "0x".to_owned();
    s
}

fn append_hex_digits(s: &mut String, n: u64)
    ensures
        final(s)@ == old(s)@ + spec_hex_chars(n as int),
    decreases n,
{
    if n < 16 {
        s.append(digit_str(n));
        assert(s@ =~= old(s)@ + spec_hex_chars(n as int));
    } else {
        append_hex_digits(s, n / 16);
        s.append(digit_str(n % 16));
        assert(s@ =~= old(s)@ + spec_hex_chars(n as int));
    }
}

/// The decimal rendering of an integer below one million, padded with
/// leading zeroes to exactly six digits.
pub open spec fn spec_padded6_chars(n: int) -> Seq<char> {
    if n < 10 {
        seq!['0', '0', '0', '0', '0'] + spec_decimal_chars(n)
    } else if n < 100 {
        seq!['0', '0', '0', '0'] + spec_decimal_chars(n)
    } else if n < 1000 {
        seq!['0', '0', '0'] + spec_decimal_chars(n)
    } else if n < 10000 {
        seq!['0', '0'] + spec_decimal_chars(n)
    } else if n < 100000 {
        seq!['0'] + spec_decimal_chars(n)
    } else {
        spec_decimal_chars(n)
    }
}

/// Renders an integer below one million as six decimal digits.
pub fn padded6_string(n: u64) -> (r: String)
    requires
        n < 1000000,
    ensures
        r@ == spec_padded6_chars(n as int),
{
    proof {
        reveal_strlit("00000");
        reveal_strlit("0000");
        reveal_strlit("000");
        reveal_strlit("00");
        reveal_strlit("0");
        reveal_strlit("");
    }
    let prefix: &'static str = if n < 10 {
        "00000"
    } else if n < 100 {
        "0000"
    } else if n < 1000 {
        "000"
    } else if n < 10000 {
        "00"
    } else if n < 100000 {
        "0"
    } else {
        ""
    };
    let mut s: String = prefix.to_owned();
    s.append(decimal_string(n).as_str());
    assert(s@ =~= spec_padded6_chars(n as int));
    s
}

/// Builds a message of the shape `a<n>b`.
pub(crate) fn msg_num(a: &str, n: u64, b: &str) -> (r: String)
    ensures
        r@ == a@ + spec_decimal_chars(n as int) + b@,
{
    let mut s: String = a.to_owned();
    s.append(decimal_string(n).as_str());
    s.append(b);
    assert(s@ =~= a@ + spec_decimal_chars(n as int) + b@);
    s
}

/// Builds a message of the shape `a<n>b<m>c`.
pub(crate) fn msg_two_nums(a: &str, n: u64, b: &str, m: u64, c: &str) -> (r: String)
    ensures
        r@ == a@ + spec_decimal_chars(n as int) + b@ + spec_decimal_chars(m as int) + c@,
{
    let mut s: String = a.to_owned();
    s.append(decimal_string(n).as_str());
    s.append(b);
    s.append(decimal_string(m).as_str());
    s.append(c);
    assert(s@ =~= a@ + spec_decimal_chars(n as int) + b@ + spec_decimal_chars(m as int) + c@);
    s
}

/// Builds a message of the shape `a0x<n>b0x<m>`, with hexadecimal
/// digits, as diagnostics print checksums.
pub(crate) fn msg_two_hex(a: &str, n: u64, b: &str, m: u64) -> (r: String)
    ensures
        r@ == a@ + (seq!['0', 'x'] + spec_hex_chars(n as int)) + b@ + (seq!['0', 'x']
            + spec_hex_chars(m as int)),
{
    let mut s: String = a.to_owned();
    s.append(hex_string(n).as_str());
    s.append(b);
    s.append(hex_string(m).as_str());
    assert(s@ =~= a@ + (seq!['0', 'x'] + spec_hex_chars(n as int)) + b@ + (seq!['0', 'x']
        + spec_hex_chars(m as int)));
    s
}

// ---------------------------------------------------------------------------
// Byte-sequence helpers
// ---------------------------------------------------------------------------

/// Whether two byte slices hold the same bytes.
pub fn bytes_eq(a: &[u8], b: &[u8]) -> (r: bool)
    ensures
        r == (a@ == b@),
{
    if a.len() != b.len() {
        assert(a@ != b@);
        return false;
    }
    let n = a.len();
    let mut i: usize = 0;
    while i < n
        invariant
            n == a@.len() == b@.len(),
            i <= n,
            forall|j: int| 0 <= j < i ==> a@[j] == b@[j],
        decreases n - i,
    {
        if a[i] != b[i] {
            return false;
        }
        i += 1;
    }
    proof {
        assert(a@ =~= b@);
    }
    true
}

/// Lexicographic order on byte sequences: the first differing byte
/// decides; a proper prefix is smaller.
pub open spec fn spec_bytes_cmp(a: Seq<u8>, b: Seq<u8>) -> core::cmp::Ordering
    decreases a.len(),
{
    if a.len() == 0 && b.len() == 0 {
        core::cmp::Ordering::Equal
    } else if a.len() == 0 {
        core::cmp::Ordering::Less
    } else if b.len() == 0 {
        core::cmp::Ordering::Greater
    } else if a[0] < b[0] {
        core::cmp::Ordering::Less
    } else if a[0] > b[0] {
        core::cmp::Ordering::Greater
    } else {
        spec_bytes_cmp(a.drop_first(), b.drop_first())
    }
}

proof fn lemma_bytes_cmp_skip(a: Seq<u8>, b: Seq<u8>, i: int)
    requires
        0 <= i <= a.len(),
        i <= b.len(),
        forall|j: int| 0 <= j < i ==> a[j] == b[j],
    ensures
        spec_bytes_cmp(a, b) == spec_bytes_cmp(a.skip(i), b.skip(i)),
    decreases i,
{
    if i > 0 {
        assert(a.len() > 0 && b.len() > 0);
        assert(a[0] == b[0]);
        lemma_bytes_cmp_skip(a.drop_first(), b.drop_first(), i - 1);
        assert(a.drop_first().skip(i - 1) =~= a.skip(i));
        assert(b.drop_first().skip(i - 1) =~= b.skip(i));
    } else {
        assert(a.skip(0) =~= a);
        assert(b.skip(0) =~= b);
    }
}

/// Compares two byte slices lexicographically.
pub fn bytes_cmp(a: &[u8], b: &[u8]) -> (r: core::cmp::Ordering)
    ensures
        r == spec_bytes_cmp(a@, b@),
{
    let mut i: usize = 0;
    loop
        invariant
            i <= a@.len(),
            i <= b@.len(),
            forall|j: int| 0 <= j < i ==> a@[j] == b@[j],
        decreases a@.len() - i,
    {
        proof {
            lemma_bytes_cmp_skip(a@, b@, i as int);
        }
        if i == a.len() && i == b.len() {
            return core::cmp::Ordering::Equal;
        }
        if i == a.len() {
            return core::cmp::Ordering::Less;
        }
        if i == b.len() {
            return core::cmp::Ordering::Greater;
        }
        if a[i] < b[i] {
            return core::cmp::Ordering::Less;
        }
        if a[i] > b[i] {
            return core::cmp::Ordering::Greater;
        }
        i += 1;
    }
}

// ---------------------------------------------------------------------------
// Trusted bridges from bytes to String
// ---------------------------------------------------------------------------

/// What `String::from_utf8_lossy` returns for a byte sequence; a
/// function of the bytes alone.
pub uninterp spec fn utf8_lossy_of(bytes: Seq<u8>) -> Seq<char>;

/// Relies on String::from_utf8_lossy: decodes UTF-8 and replaces each
/// invalid sequence with U+FFFD; valid UTF-8 is decoded exactly, and
/// the result depends on the bytes alone.
#[verifier::external_body]
pub fn lossy_string(bytes: &[u8]) -> (r: String)
    ensures
        r@ == utf8_lossy_of(bytes@),
        vstd::utf8::valid_utf8(bytes@) ==> r@ == vstd::utf8::decode_utf8(bytes@),
{
    String::from_utf8_lossy(bytes).into_owned()
}

/// Relies on str::from_utf8: succeeds exactly on valid UTF-8 and
/// decodes it.
#[verifier::external_body]
pub fn utf8_string(bytes: &[u8]) -> (r: Option<String>)
    ensures
        r is Some <==> vstd::utf8::valid_utf8(bytes@),
        r is Some ==> r.unwrap()@ == vstd::utf8::decode_utf8(bytes@),
{
    match core::str::from_utf8(bytes) {
        Ok(s) => Some(s.to_string()),
        Err(_) => None,
    }
}

} // verus!
