//! Reading text: whether two string slices hold the same characters, and the
//! id that a decimal text writes.

use vstd::prelude::*;
use vstd::string::StringExecFns;
use vstd::string::StringSliceAdditionalSpecFns;
use vstd::utf8::encode_utf8;
use vstd::utf8::encode_utf8_decode_utf8;
use vstd::utf8::is_ascii_chars;
use vstd::utf8::is_ascii_chars_encode_utf8;

verus! {

/// Whether two string slices hold the same characters.
pub fn same_text(left: &str, right: &str) -> (same: bool)
    ensures
        same == (left@ == right@),
{
    let a = left.as_bytes();
    let b = right.as_bytes();
    proof {
        encode_utf8_decode_utf8(left@);
        encode_utf8_decode_utf8(right@);
    }
    if a.len() != b.len() {
        return false;
    }
    let mut k: usize = 0;
    while k < a.len()
        invariant
            k <= a@.len(),
            a@.len() == b@.len(),
            a@ == encode_utf8(left@),
            b@ == encode_utf8(right@),
            forall|i: int| 0 <= i < k ==> a@[i] == b@[i],
        decreases a@.len() - k,
    {
        if a[k] != b[k] {
            return false;
        }
        k += 1;
    }
    assert(a@ =~= b@);
    true
}

/// Whether `c` is one of the ten decimal digits.
pub open spec fn is_digit(c: char) -> bool {
    '0' <= c && c <= '9'
}

/// The number that a run of decimal digits writes.
pub open spec fn decimal_value(digits: Seq<char>) -> int
    decreases digits.len(),
{
    if digits.len() == 0 {
        0
    } else {
        10 * decimal_value(digits.drop_last()) + (digits.last() as int - '0' as int)
    }
}

/// Whether every character is a decimal digit.
pub open spec fn all_digits(digits: Seq<char>) -> bool {
    forall|i: int| 0 <= i < digits.len() ==> is_digit(#[trigger] digits[i])
}

/// The id that `text` writes: an optional sign, then one or more decimal
/// digits and nothing else, for a number that an `i16` holds.
pub open spec fn id_of(text: Seq<char>) -> Option<i16> {
    let signed = text.len() > 0 && (text[0] == '-' || text[0] == '+');
    let digits = if signed {
        text.skip(1)
    } else {
        text
    };
    let magnitude = decimal_value(digits);
    let value = if signed && text[0] == '-' {
        -magnitude
    } else {
        magnitude
    };
    if digits.len() > 0 && all_digits(digits) && -0x8000 <= value <= 0x7fff {
        Some(value as i16)
    } else {
        None
    }
}

/// A run of digits writes a number that is not negative and not below the
/// number that any of its prefixes writes.
pub proof fn lemma_decimal_value_grows(digits: Seq<char>, k: int)
    requires
        all_digits(digits),
        0 <= k <= digits.len(),
    ensures
        0 <= decimal_value(digits.take(k)) <= decimal_value(digits),
    decreases digits.len(),
{
    if digits.len() == 0 {
        assert(digits.take(k) =~= digits);
    } else {
        let front = digits.drop_last();
        assert(is_digit(digits.last()));
        lemma_decimal_value_grows(front, front.len() as int);
        assert(front.take(front.len() as int) =~= front);
        if k == digits.len() {
            assert(digits.take(k) =~= digits);
        } else {
            lemma_decimal_value_grows(front, k);
            assert(front.take(k) =~= digits.take(k));
        }
    }
}

/// The bytes that an id is written with.
const MINUS: u8 = 0x2d;

const PLUS: u8 = 0x2b;

const DIGIT_ZERO: u8 = 0x30;

const DIGIT_NINE: u8 = 0x39;

/// Reads an id from its decimal text.
pub fn parse_id(text: &str) -> (id: Option<i16>)
    ensures
        id == id_of(text@),
{
    if !text.is_ascii() {
        proof {
            let bad = choose|i: int|
                0 <= i < text@.len() && !('\0' <= #[trigger] text@[i] <= '\u{7f}');
            if text@.len() > 0 && (text@[0] == '-' || text@[0] == '+') {
                assert(text@.skip(1)[bad - 1] == text@[bad]);
            }
        }
        return None;
    }
    proof {
        is_ascii_chars_encode_utf8(text@);
    }
    let bytes = text.as_bytes();
    let n = bytes.len();
    if n == 0 {
        return None;
    }
    let negative = bytes[0] == MINUS;
    let signed = negative || bytes[0] == PLUS;
    let start: usize = if signed {
        1
    } else {
        0
    };
    let ghost digits = if signed {
        text@.skip(1)
    } else {
        text@
    };
    let mut magnitude: i32 = 0;
    let mut k: usize = start;
    while k < n
        invariant
            start <= k <= n,
            n == text@.len(),
            signed == (text@[0] == '-' || text@[0] == '+'),
            negative == (text@[0] == '-'),
            start == if signed { 1usize } else { 0usize },
            n == bytes@.len(),
            is_ascii_chars(text@),
            forall|i: int| 0 <= i < n ==> text@[i] as u8 == #[trigger] bytes@[i],
            digits == text@.skip(start as int),
            all_digits(digits.take(k - start)),
            magnitude == decimal_value(digits.take(k - start)),
            0 <= magnitude <= 0x8000,
        decreases n - k,
    {
        let byte = bytes[k];
        let ghost c = text@[k as int];
        assert(c == digits[k - start]);
        if byte < DIGIT_ZERO || byte > DIGIT_NINE {
            return None;
        }
        proof {
            let more = digits.take(k - start + 1);
            assert(more.drop_last() =~= digits.take(k - start));
        }
        magnitude = magnitude * 10 + (byte - DIGIT_ZERO) as i32;
        if magnitude > 0x8000 {
            proof {
                if all_digits(digits) {
                    lemma_decimal_value_grows(digits, k - start + 1);
                }
                assert(text@.skip(0) =~= text@);
            }
            return None;
        }
        k += 1;
    }
    assert(digits.take(k - start) =~= digits);
    if k == start {
        return None;
    }
    if negative {
        Some((-magnitude) as i16)
    } else if magnitude > 0x7fff {
        None
    } else {
        Some(magnitude as i16)
    }
}

/// The character that writes the digit `d`.
pub open spec fn digit_char(d: int) -> char {
    if d == 0 {
        '0'
    } else if d == 1 {
        '1'
    } else if d == 2 {
        '2'
    } else if d == 3 {
        '3'
    } else if d == 4 {
        '4'
    } else if d == 5 {
        '5'
    } else if d == 6 {
        '6'
    } else if d == 7 {
        '7'
    } else if d == 8 {
        '8'
    } else {
        '9'
    }
}

/// The decimal writing of `n`: no sign, no leading zero but for zero itself.
pub open spec fn decimal_text(n: nat) -> Seq<char>
    decreases n,
{
    if n < 10 {
        seq![digit_char(n as int)]
    } else {
        decimal_text(n / 10).push(digit_char((n % 10) as int))
    }
}

/// The text of one digit.
fn digit_text(d: usize) -> (text: &'static str)
    requires
        d < 10,
    ensures
        text@ == seq![digit_char(d as int)],
{
    proof {
        reveal_strlit("0");
        reveal_strlit("1");
        reveal_strlit("2");
        reveal_strlit("3");
        reveal_strlit("4");
        reveal_strlit("5");
        reveal_strlit("6");
        reveal_strlit("7");
        reveal_strlit("8");
        reveal_strlit("9");
    }
    let text = if d == 0 {
        "0"
    } else if d == 1 {
        "1"
    } else if d == 2 {
        "2"
    } else if d == 3 {
        "3"
    } else if d == 4 {
        "4"
    } else if d == 5 {
        "5"
    } else if d == 6 {
        "6"
    } else if d == 7 {
        "7"
    } else if d == 8 {
        "8"
    } else {
        "9"
    };
    assert(text@ =~= seq![digit_char(d as int)]);
    text
}

/// Writes `n` in decimal.
pub fn decimal(n: usize) -> (text: String)
    ensures
        text@ == decimal_text(n as nat),
    decreases n,
{
    if n < 10 {
        digit_text(n).to_owned()
    } else {
        let mut text = decimal(n / 10);
        text.append(digit_text(n % 10));
        assert(text@ =~= decimal_text(n as nat));
        text
    }
}

} // verus!
