//! Hexadecimal numerals: what they denote, how they are read and written.

use vstd::prelude::*;
use vstd::string::StringExecFns;

verus! {

/// The value of `c` as a hexadecimal digit of either case, if it is one.
pub open spec fn hex_digit_value(c: char) -> Option<nat> {
    let code = c as nat;
    if '0' as nat <= code <= '9' as nat {
        Some((code - '0' as nat) as nat)
    } else if 'a' as nat <= code <= 'f' as nat {
        Some((code - 'a' as nat + 10) as nat)
    } else if 'A' as nat <= code <= 'F' as nat {
        Some((code - 'A' as nat + 10) as nat)
    } else {
        None
    }
}

/// Whether every character of `digits` is a hexadecimal digit.
pub open spec fn all_hex(digits: Seq<char>) -> bool {
    forall|i: int| 0 <= i < digits.len() ==> (#[trigger] hex_digit_value(digits[i])) is Some
}

/// The number that `digits` denote in base 16, most significant digit first.
pub open spec fn hex_value(digits: Seq<char>) -> nat
    decreases digits.len(),
{
    if digits.len() == 0 {
        0
    } else {
        hex_value(digits.drop_last()) * 16 + hex_digit_value(digits.last()).unwrap()
    }
}

/// The number that `text` denotes as a hexadecimal numeral no greater than
/// `max`: at least one digit of either case and nothing else, no sign
/// either. Any number of leading zeros is allowed.
pub open spec fn hex_numeral(text: Seq<char>, max: nat) -> Option<nat> {
    if text.len() > 0 && all_hex(text) && hex_value(text) <= max {
        Some(hex_value(text))
    } else {
        None
    }
}

/// Reads one hexadecimal digit.
pub fn read_hex_digit(c: char) -> (r: Option<u8>)
    ensures
        r matches Some(d) ==> hex_digit_value(c) == Some(d as nat) && d < 16,
        r is None ==> hex_digit_value(c) is None,
{
    let code: u32 = c as u32;
    if 48 <= code && code <= 57 {
        Some((code - 48) as u8)
    } else if 97 <= code && code <= 102 {
        Some((code - 97 + 10) as u8)
    } else if 65 <= code && code <= 70 {
        Some((code - 65 + 10) as u8)
    } else {
        None
    }
}

/// Extending a numeral by digits never lowers its value.
pub proof fn lemma_hex_value_prefix(digits: Seq<char>, k: int)
    requires
        0 <= k <= digits.len(),
    ensures
        hex_value(digits.take(k)) <= hex_value(digits),
    decreases digits.len() - k,
{
    if k < digits.len() {
        lemma_hex_value_prefix(digits, k + 1);
        assert(digits.take(k + 1).drop_last() == digits.take(k));
    } else {
        assert(digits.take(k) == digits);
    }
}

/// Reads a hexadecimal numeral that must not exceed `max`.
pub fn read_hex(text: &Vec<char>, max: u64) -> (r: Option<u64>)
    ensures
        r matches Some(v) ==> hex_numeral(text@, max as nat) == Some(v as nat),
        r is None ==> hex_numeral(text@, max as nat) is None,
{
    let n = text.len();
    if n == 0 {
        return None;
    }
    let mut acc: u64 = 0;
    let mut i: usize = 0;
    while i < n
        invariant
            i <= n,
            n == text.len(),
            all_hex(text@.take(i as int)),
            acc == hex_value(text@.take(i as int)),
            acc <= max,
        decreases n - i,
    {
        let digit = read_hex_digit(text[i]);
        proof {
            assert(text@.take(i + 1).drop_last() == text@.take(i as int));
            lemma_hex_value_prefix(text@, i + 1);
        }
        match digit {
            None => {
                return None;
            },
            Some(d) => {
                if d as u64 > max || acc > (max - d as u64) / 16 {
                    return None;
                }
                acc = acc * 16 + d as u64;
            },
        }
        i += 1;
    }
    assert(text@.take(n as int) == text@);
    Some(acc)
}

/// The upper-case hexadecimal digit for `n`, which is less than 16.
pub open spec fn hex_digit_char(n: nat) -> char
    recommends
        n < 16,
{
    seq!['0', '1', '2', '3', '4', '5', '6', '7', '8', '9', 'A', 'B', 'C', 'D', 'E', 'F'][n as int]
}

/// The upper-case hexadecimal numeral of `value`, padded with zeros on the
/// left to `width` digits. A value that needs more digits gets them all.
pub open spec fn hex_text(value: nat, width: nat) -> Seq<char>
    decreases value, width,
{
    if value < 16 && width <= 1 {
        seq![hex_digit_char(value)]
    } else {
        hex_text(value / 16, if width > 0 { (width - 1) as nat } else { 0 }).push(
            hex_digit_char(value % 16),
        )
    }
}

/// The one-character text of the upper-case hexadecimal digit for `n`.
fn hex_digit_text(n: u64) -> (s: &'static str)
    requires
        n < 16,
    ensures
        s@ == seq![hex_digit_char(n as nat)],
{
    proof {
        reveal_strlit("0");
        reveal_strlit("1");
        reveal_strlit("2");
        reveal_strlit("3");
        reveal_strlit("4");
        reveal_strlit("5");
        reveal_strlit("6");
        reveal_strlit("7");
        reveal_strlit("8");
        reveal_strlit("9");
        reveal_strlit("A");
        reveal_strlit("B");
        reveal_strlit("C");
        reveal_strlit("D");
        reveal_strlit("E");
        reveal_strlit("F");
    }
    let s = match n {
        0 => "0",
        1 => "1",
        2 => "2",
        3 => "3",
        4 => "4",
        5 => "5",
        6 => "6",
        7 => "7",
        8 => "8",
        9 => "9",
        10 => "A",
        11 => "B",
        12 => "C",
        13 => "D",
        14 => "E",
        _ => "F",
    };
    assert(s@ =~= seq![hex_digit_char(n as nat)]);
    s
}

/// Appends to `out` the numeral of `value`, padded to `width` digits.
pub fn write_hex(out: &mut String, value: u64, width: usize)
    ensures
        final(out)@ == old(out)@ + hex_text(value as nat, width as nat),
    decreases value, width,
{
    if value < 16 && width <= 1 {
        out.append(hex_digit_text(value));
    } else {
        write_hex(out, value / 16, if width > 0 { width - 1 } else { 0 });
        out.append(hex_digit_text(value % 16));
        assert(out@ =~= old(out)@ + hex_text(value as nat, width as nat));
    }
}

/// Each upper-case digit has the value that it was chosen for, and is no
/// hyphen.
pub proof fn lemma_hex_digit_char(n: nat)
    requires
        n < 16,
    ensures
        hex_digit_value(hex_digit_char(n)) == Some(n),
        hex_digit_char(n) != '-',
{
}

/// What [`hex_text`] writes is a numeral of `value`: at least one digit and at
/// least `width` of them, nothing but digits, and `value` when read.
pub proof fn lemma_hex_text_is_numeral(value: nat, width: nat)
    ensures
        hex_text(value, width).len() >= 1,
        hex_text(value, width).len() >= width,
        all_hex(hex_text(value, width)),
        hex_value(hex_text(value, width)) == value,
        forall|i: int|
            0 <= i < hex_text(value, width).len() ==> (#[trigger] hex_text(value, width)[i])
                != '-',
    decreases value, width,
{
    let text = hex_text(value, width);
    if value < 16 && width <= 1 {
        lemma_hex_digit_char(value);
        assert(text.drop_last() == Seq::<char>::empty());
        assert(hex_value(text.drop_last()) == 0);
    } else {
        let rest_width: nat = if width > 0 { (width - 1) as nat } else { 0 };
        let rest = hex_text(value / 16, rest_width);
        lemma_hex_text_is_numeral(value / 16, rest_width);
        lemma_hex_digit_char(value % 16);
        assert(text == rest.push(hex_digit_char(value % 16)));
        assert(text.drop_last() == rest);
        assert forall|i: int| 0 <= i < text.len() implies {
            &&& (#[trigger] hex_digit_value(text[i])) is Some
        } by {
            if i < rest.len() {
                assert(text[i] == rest[i]);
            }
        }
        assert forall|i: int| 0 <= i < text.len() implies (#[trigger] text[i]) != '-' by {
            if i < rest.len() {
                assert(text[i] == rest[i]);
            }
        }
    }
}

/// What [`hex_text`] writes of a value reads back as that value, under any
/// limit that the value respects.
pub proof fn lemma_hex_text_reads_back(value: nat, width: nat, max: nat)
    requires
        value <= max,
    ensures
        hex_numeral(hex_text(value, width), max) == Some(value),
{
    lemma_hex_text_is_numeral(value, width);
}

/// Whether `c` is a decimal digit or one of the capitals `A` to `F`.
pub open spec fn is_upper_hex_digit(c: char) -> bool {
    ('0' as nat <= c as nat <= '9' as nat) || ('A' as nat <= c as nat <= 'F' as nat)
}

/// Whether every character of `digits` is an upper-case hexadecimal digit.
pub open spec fn all_upper_hex(digits: Seq<char>) -> bool {
    forall|i: int| 0 <= i < digits.len() ==> is_upper_hex_digit(#[trigger] digits[i])
}

/// Sixteen to the power of `n`: the least number that `n` digits cannot hold.
pub open spec fn pow16(n: nat) -> nat
    decreases n,
{
    if n == 0 {
        1
    } else {
        16 * pow16((n - 1) as nat)
    }
}

/// A value that fits `width` digits is written in exactly `width`
/// upper-case digits.
pub proof fn lemma_hex_text_fits(value: nat, width: nat)
    requires
        width >= 1,
        value < pow16(width),
    ensures
        hex_text(value, width).len() == width,
        all_upper_hex(hex_text(value, width)),
    decreases width,
{
    let text = hex_text(value, width);
    reveal_with_fuel(pow16, 2);
    if width == 1 {
        assert(text == seq![hex_digit_char(value)]);
    } else {
        let rest = hex_text(value / 16, (width - 1) as nat);
        lemma_hex_text_fits(value / 16, (width - 1) as nat);
        assert(text == rest.push(hex_digit_char(value % 16)));
        assert forall|i: int| 0 <= i < text.len() implies is_upper_hex_digit(
            #[trigger] text[i],
        ) by {
            if i < rest.len() {
                assert(text[i] == rest[i]);
            }
        }
    }
}

/// An upper-case digit is the digit that is written for its value.
pub proof fn lemma_upper_hex_digit(c: char)
    requires
        is_upper_hex_digit(c),
    ensures
        hex_digit_value(c) is Some,
        hex_digit_value(c).unwrap() < 16,
        hex_digit_char(hex_digit_value(c).unwrap()) == c,
{
    let d = hex_digit_value(c).unwrap();
    assert(hex_digit_char(d) as nat == (if d < 10 { 48 + d } else { 55 + d }));
}

/// A numeral of upper-case digits is what [`hex_text`] writes of its value
/// at its own width.
pub proof fn lemma_hex_value_writes_back(digits: Seq<char>)
    requires
        digits.len() >= 1,
        all_upper_hex(digits),
    ensures
        all_hex(digits),
        hex_value(digits) < pow16(digits.len()),
        hex_text(hex_value(digits), digits.len()) == digits,
    decreases digits.len(),
{
    reveal_with_fuel(pow16, 2);
    let last = digits.last();
    lemma_upper_hex_digit(last);
    let d = hex_digit_value(last).unwrap();
    assert forall|i: int| 0 <= i < digits.len() implies (#[trigger] hex_digit_value(
        digits[i],
    )) is Some by {
        lemma_upper_hex_digit(digits[i]);
    }
    if digits.len() == 1 {
        assert(digits.drop_last() == Seq::<char>::empty());
        assert(hex_value(digits.drop_last()) == 0);
        assert(seq![last] == digits);
    } else {
        let rest = digits.drop_last();
        lemma_hex_value_writes_back(rest);
        assert(hex_value(digits) == hex_value(rest) * 16 + d);
        assert(hex_value(digits) / 16 == hex_value(rest));
        assert(hex_value(digits) % 16 == d);
        assert(rest.push(last) == digits);
    }
}

} // verus!
