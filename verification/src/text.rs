//! Text helpers: comparison, decimal and hexadecimal rendering, joining.

use vstd::prelude::*;
use vstd::string::StringSliceAdditionalSpecFns;
use vstd::utf8::encode_utf8;
use vstd::utf8::encode_utf8_decode_utf8;

verus! {

/// The views of a sequence of strings.
pub open spec fn texts(strings: Seq<String>) -> Seq<Seq<char>> {
    Seq::new(strings.len(), |i: int| strings[i]@)
}

/// The view of an optional string.
pub open spec fn opt_text(text: Option<String>) -> Option<Seq<char>> {
    match text {
        Some(text) => Some(text@),
        None => None,
    }
}

/// Two texts with the same encoding are the same text.
proof fn lemma_encoding_is_injective(a: Seq<char>, b: Seq<char>)
    requires
        encode_utf8(a) == encode_utf8(b),
    ensures
        a == b,
{
    encode_utf8_decode_utf8(a);
    encode_utf8_decode_utf8(b);
}

/// Whether two texts hold the same characters.
pub fn same_text(a: &str, b: &str) -> (same: bool)
    ensures
        same == (a@ == b@),
{
    let left = a.as_bytes();
    let right = b.as_bytes();
    if left.len() != right.len() {
        return false;
    }
    let mut i: usize = 0;
    while i < left.len()
        invariant
            left@ == a.spec_bytes(),
            right@ == b.spec_bytes(),
            left@.len() == right@.len(),
            i <= left@.len(),
            forall|j: int| 0 <= j < i ==> left@[j] == right@[j],
        decreases left@.len() - i,
    {
        if left[i] != right[i] {
            return false;
        }
        i = i + 1;
    }
    proof {
        assert(left@ =~= right@);
        lemma_encoding_is_injective(a@, b@);
    }
    true
}

/// Whether two optional texts are the same.
pub fn same_opt_text(a: &Option<String>, b: &Option<String>) -> (same: bool)
    ensures
        same == (opt_text(*a) == opt_text(*b)),
{
    match (a, b) {
        (Some(a), Some(b)) => same_text(a.as_str(), b.as_str()),
        (None, None) => true,
        _ => false,
    }
}

/// The decimal digit of a number below ten.
pub open spec fn digit_char(digit: nat) -> char {
    if digit == 0 {
        '0'
    } else if digit == 1 {
        '1'
    } else if digit == 2 {
        '2'
    } else if digit == 3 {
        '3'
    } else if digit == 4 {
        '4'
    } else if digit == 5 {
        '5'
    } else if digit == 6 {
        '6'
    } else if digit == 7 {
        '7'
    } else if digit == 8 {
        '8'
    } else {
        '9'
    }
}

/// A number in decimal, without leading zeros.
pub open spec fn decimal_text(number: nat) -> Seq<char>
    decreases number,
{
    if number < 10 {
        seq![digit_char(number)]
    } else {
        decimal_text(number / 10).push(digit_char(number % 10))
    }
}

/// A number in decimal, with a minus sign where it is negative.
pub open spec fn signed_text(number: int) -> Seq<char> {
    if number < 0 {
        seq!['-'] + decimal_text((0 - number) as nat)
    } else {
        decimal_text(number as nat)
    }
}

fn digit_str(digit: u64) -> (text: &'static str)
    requires
        digit < 10,
    ensures
        text@ == seq![digit_char(digit as nat)],
{
    proof {
        reveal_strlit("0");
        reveal_strlit("1");
        reveal_strlit("2");
        reveal_strlit("3");
        reveal_strlit("4");
        reveal_strlit("5");
        reveal_strlit("6");
        reveal_strlit("7");
        reveal_strlit("8");
        reveal_strlit("9");
    }
    if digit == 0 {
        "0"
    } else if digit == 1 {
        "1"
    } else if digit == 2 {
        "2"
    } else if digit == 3 {
        "3"
    } else if digit == 4 {
        "4"
    } else if digit == 5 {
        "5"
    } else if digit == 6 {
        "6"
    } else if digit == 7 {
        "7"
    } else if digit == 8 {
        "8"
    } else {
        "9"
    }
}

/// Renders a number in decimal.
pub fn decimal(number: u64) -> (text: String)
    ensures
        text@ == decimal_text(number as nat),
    decreases number,
{
    if number < 10 {
        digit_str(number).to_owned()
    } else {
        let mut text = decimal(number / 10);
        text.append(digit_str(number % 10));
        text
    }
}

proof fn lemma_digits_differ(a: nat, b: nat)
    requires
        a < 10,
        b < 10,
        digit_char(a) == digit_char(b),
    ensures
        a == b,
{
}

/// The decimals of different numbers differ.
pub proof fn decimals_differ(a: nat, b: nat)
    requires
        a != b,
    ensures
        decimal_text(a) != decimal_text(b),
    decreases a + b,
{
    if decimal_text(a) == decimal_text(b) {
        lemma_decimal_is_not_empty(a / 10);
        lemma_decimal_is_not_empty(b / 10);
        assert(decimal_text(a).last() == digit_char(a % 10));
        assert(decimal_text(b).last() == digit_char(b % 10));
        lemma_digits_differ(a % 10, b % 10);
        if a < 10 {
            assert(decimal_text(a).len() == 1);
        } else if b < 10 {
            assert(decimal_text(b).len() == 1);
        } else {
            assert(decimal_text(a).drop_last() =~= decimal_text(a / 10));
            assert(decimal_text(b).drop_last() =~= decimal_text(b / 10));
            decimals_differ(a / 10, b / 10);
        }
    }
}

proof fn lemma_decimal_is_not_empty(number: nat)
    ensures
        decimal_text(number).len() > 0,
{
}

proof fn lemma_decimal_has_no_hyphen(number: nat, i: int)
    requires
        0 <= i < decimal_text(number).len(),
    ensures
        decimal_text(number)[i] != '-',
    decreases number,
{
    if number >= 10 && i < decimal_text(number).len() - 1 {
        lemma_decimal_has_no_hyphen(number / 10, i);
    }
}

/// Texts that end in a hyphen and different numbers differ.
pub proof fn lemma_numbered_texts_differ(
    first_prefix: Seq<char>,
    first: nat,
    second_prefix: Seq<char>,
    second: nat,
)
    requires
        first != second,
    ensures
        first_prefix + "-"@ + decimal_text(first) != second_prefix + "-"@ + decimal_text(second),
{
    reveal_strlit("-");
    let a = first_prefix + "-"@ + decimal_text(first);
    let b = second_prefix + "-"@ + decimal_text(second);
    if a == b {
        let m = first_prefix.len() as int;
        let n = second_prefix.len() as int;
        assert("-"@.len() == 1);
        assert(a.len() == m + 1 + decimal_text(first).len());
        assert(b.len() == n + 1 + decimal_text(second).len());
        lemma_decimal_is_not_empty(first);
        lemma_decimal_is_not_empty(second);
        assert(a[m] == '-');
        assert(b[n] == '-');
        if m < n {
            lemma_decimal_has_no_hyphen(first, n - m - 1);
            assert(a[n] == decimal_text(first)[n - m - 1]);
        } else if n < m {
            lemma_decimal_has_no_hyphen(second, m - n - 1);
            assert(b[m] == decimal_text(second)[m - n - 1]);
        } else {
            assert(a.skip(m + 1) =~= decimal_text(first));
            assert(b.skip(m + 1) =~= decimal_text(second));
            decimals_differ(first, second);
        }
    }
}

/// Renders a signed number in decimal.
pub fn signed_decimal(number: i64) -> (text: String)
    ensures
        text@ == signed_text(number as int),
{
    if number < 0 {
        proof {
            reveal_strlit("-");
        }
        let magnitude: u64 = if number == i64::MIN {
            0x8000_0000_0000_0000
        } else {
            (-number) as u64
        };
        let mut text = "-".to_owned();
        let digits = decimal(magnitude);
        text.append(digits.as_str());
        assert(text@ =~= signed_text(number as int));
        text
    } else {
        decimal(number as u64)
    }
}

/// The lower-case hexadecimal digit of a number below sixteen.
pub open spec fn nibble_char(nibble: nat) -> char {
    if nibble < 10 {
        digit_char(nibble)
    } else if nibble == 10 {
        'a'
    } else if nibble == 11 {
        'b'
    } else if nibble == 12 {
        'c'
    } else if nibble == 13 {
        'd'
    } else if nibble == 14 {
        'e'
    } else {
        'f'
    }
}

/// Bytes in lower-case hexadecimal, two digits each.
pub open spec fn hex_text(bytes: Seq<u8>) -> Seq<char> {
    Seq::new(
        2 * bytes.len(),
        |i: int|
            if i % 2 == 0 {
                nibble_char((bytes[i / 2] / 16) as nat)
            } else {
                nibble_char((bytes[i / 2] % 16) as nat)
            },
    )
}

fn nibble_str(nibble: u8) -> (text: &'static str)
    requires
        nibble < 16,
    ensures
        text@ == seq![nibble_char(nibble as nat)],
{
    proof {
        reveal_strlit("a");
        reveal_strlit("b");
        reveal_strlit("c");
        reveal_strlit("d");
        reveal_strlit("e");
        reveal_strlit("f");
    }
    if nibble < 10 {
        digit_str(nibble as u64)
    } else if nibble == 10 {
        "a"
    } else if nibble == 11 {
        "b"
    } else if nibble == 12 {
        "c"
    } else if nibble == 13 {
        "d"
    } else if nibble == 14 {
        "e"
    } else {
        "f"
    }
}

/// Renders bytes in lower-case hexadecimal.
pub fn hex(bytes: &[u8]) -> (text: String)
    ensures
        text@ == hex_text(bytes@),
{
    let mut text = String::new();
    let mut i: usize = 0;
    while i < bytes.len()
        invariant
            i <= bytes@.len(),
            text@ == hex_text(bytes@.take(i as int)),
        decreases bytes@.len() - i,
    {
        let byte: u8 = bytes[i];
        text.append(nibble_str(byte / 16));
        text.append(nibble_str(byte % 16));
        i = i + 1;
        assert(text@ =~= hex_text(bytes@.take(i as int)));
    }
    assert(bytes@.take(i as int) =~= bytes@);
    text
}

proof fn lemma_nibble_is_injective(a: nat, b: nat)
    requires
        a < 16,
        b < 16,
        nibble_char(a) == nibble_char(b),
    ensures
        a == b,
{
}

/// Hexadecimal rendering loses nothing: different bytes, different texts.
pub proof fn hex_is_injective(a: Seq<u8>, b: Seq<u8>)
    requires
        hex_text(a) == hex_text(b),
    ensures
        a == b,
{
    assert(hex_text(a).len() == 2 * a.len());
    assert(hex_text(b).len() == 2 * b.len());
    assert forall|i: int| 0 <= i < a.len() implies a[i] == b[i] by {
        let high = hex_text(a)[2 * i];
        let low = hex_text(a)[2 * i + 1];
        assert(high == hex_text(b)[2 * i]);
        assert(low == hex_text(b)[2 * i + 1]);
        assert((2 * i) / 2 == i && (2 * i + 1) / 2 == i);
        lemma_nibble_is_injective((a[i] / 16) as nat, (b[i] / 16) as nat);
        lemma_nibble_is_injective((a[i] % 16) as nat, (b[i] % 16) as nat);
    }
    assert(a =~= b);
}

/// Parts put one behind another, with a separator between two of them.
pub open spec fn joined_text(parts: Seq<Seq<char>>, separator: Seq<char>) -> Seq<char>
    decreases parts.len(),
{
    if parts.len() == 0 {
        Seq::empty()
    } else if parts.len() == 1 {
        parts[0]
    } else {
        joined_text(parts.drop_last(), separator) + separator + parts.last()
    }
}

/// Joins the parts with the separator.
pub fn join(parts: &Vec<String>, separator: &str) -> (text: String)
    ensures
        text@ == joined_text(texts(parts@), separator@),
{
    if parts.len() == 0 {
        return String::new();
    }
    let mut text = parts[0].clone();
    let mut i: usize = 1;
    assert(texts(parts@).take(1) =~= seq![parts@[0]@]);
    while i < parts.len()
        invariant
            1 <= i <= parts@.len(),
            text@ == joined_text(texts(parts@).take(i as int), separator@),
        decreases parts@.len() - i,
    {
        text.append(separator);
        text.append(parts[i].as_str());
        i = i + 1;
        proof {
            let longer = texts(parts@).take(i as int);
            assert(longer.drop_last() =~= texts(parts@).take(i - 1));
        }
    }
    assert(texts(parts@).take(i as int) =~= texts(parts@));
    text
}

/// Puts two texts one behind the other.
pub fn concat2(a: &str, b: &str) -> (text: String)
    ensures
        text@ == a@ + b@,
{
    let mut text = a.to_owned();
    text.append(b);
    text
}

/// Puts three texts one behind the other.
pub fn concat3(a: &str, b: &str, c: &str) -> (text: String)
    ensures
        text@ == a@ + b@ + c@,
{
    let mut text = concat2(a, b);
    text.append(c);
    text
}

/// Copies a list of strings.
pub fn copy_texts(strings: &Vec<String>) -> (copy: Vec<String>)
    ensures
        copy@ == strings@,
{
    let mut copy: Vec<String> = Vec::new();
    let mut i: usize = 0;
    while i < strings.len()
        invariant
            i <= strings@.len(),
            copy@ == strings@.take(i as int),
        decreases strings@.len() - i,
    {
        copy.push(strings[i].clone());
        i = i + 1;
        assert(copy@ =~= strings@.take(i as int));
    }
    assert(copy@ =~= strings@);
    copy
}

/// Copies an optional string.
pub fn copy_opt_text(text: &Option<String>) -> (copy: Option<String>)
    ensures
        copy == *text,
{
    match text {
        Some(text) => Some(text.clone()),
        None => None,
    }
}

/// A number is written digit by digit, the highest first: the text of ten
/// times a number and a digit is the number's text with the digit behind it,
/// and the digits are the ASCII digits.
pub proof fn decimals_are_written_digit_by_digit(number: nat, digit: nat)
    requires
        digit < 10,
    ensures
        decimal_text(digit).len() == 1,
        decimal_text(digit)[0] as u32 == 48 + digit,
        number > 0 ==> decimal_text(10 * number + digit) == decimal_text(number).push(
            decimal_text(digit)[0],
        ),
        number > 0 ==> signed_text(-(number as int)) == seq!['-'] + decimal_text(number),
        signed_text(number as int) == decimal_text(number),
{
    if number > 0 {
        let whole = 10 * number + digit;
        assert(whole / 10 == number && whole % 10 == digit) by (nonlinear_arith)
            requires
                whole == 10 * number + digit,
                digit < 10,
        ;
    }
}

/// Bytes are written byte by byte, two lower-case hexadecimal digits each,
/// the higher one first.
pub proof fn bytes_are_written_in_hexadecimal(a: Seq<u8>, b: Seq<u8>, byte: u8)
    ensures
        hex_text(a + b) == hex_text(a) + hex_text(b),
        hex_text(seq![byte]).len() == 2,
        hex_text(seq![byte])[0] as u32 == if byte / 16 < 10 {
            48 + byte / 16
        } else {
            87 + byte / 16
        },
        hex_text(seq![byte])[1] as u32 == if byte % 16 < 10 {
            48 + byte % 16
        } else {
            87 + byte % 16
        },
{
    assert(hex_text(a + b) =~= hex_text(a) + hex_text(b)) by {
        assert forall|i: int| 0 <= i < 2 * (a.len() + b.len()) implies hex_text(a + b)[i] == (
        hex_text(a) + hex_text(b))[i] by {
            if i < 2 * a.len() {
                assert((a + b)[i / 2] == a[i / 2]);
            } else {
                assert((a + b)[i / 2] == b[i / 2 - a.len()]);
                assert((i - 2 * a.len()) / 2 == i / 2 - a.len());
                assert((i - 2 * a.len()) % 2 == i % 2);
            }
        }
    }
    let one = seq![byte];
    assert(one[0] == byte);
    assert(0int / 2 == 0 && 1int / 2 == 0);
    assert(0 <= byte / 16 < 16);
    assert(0 <= byte % 16 < 16);
}

/// Joined parts stand one behind another with the separator between each two:
/// a part that is joined to others comes behind them and one separator.
pub proof fn parts_are_joined_in_order(parts: Seq<Seq<char>>, part: Seq<char>, separator: Seq<char>)
    ensures
        joined_text(Seq::empty(), separator) == Seq::<char>::empty(),
        joined_text(seq![part], separator) == part,
        parts.len() > 0 ==> joined_text(parts.push(part), separator) == joined_text(
            parts,
            separator,
        ) + separator + part,
{
    if parts.len() > 0 {
        assert(parts.push(part).drop_last() =~= parts);
    }
}

/// An optional text is there or not as its string is, and a list of texts is
/// that of its strings, in order.
pub proof fn texts_are_those_of_their_strings(text: Option<String>, strings: Seq<String>, at: int)
    ensures
        opt_text(text) is Some <==> text is Some,
        text is Some ==> opt_text(text) == Some(text->Some_0@),
        texts(strings).len() == strings.len(),
        0 <= at < strings.len() ==> texts(strings)[at] == strings[at]@,
{
}

} // verus!
