//! Text helpers shared by the rest of the crate.

use vstd::prelude::*;
use vstd::string::StringExecFns;
use vstd::utf8::*;

verus! {

/// Whether two string slices hold the same characters.
pub fn same_text(a: &str, b: &str) -> (same: bool)
    ensures
        same == (a@ == b@),
{
    let x = a.as_bytes();
    let y = b.as_bytes();
    proof {
        encode_utf8_decode_utf8(a@);
        encode_utf8_decode_utf8(b@);
    }
    if x.len() != y.len() {
        return false;
    }
    let mut i: usize = 0;
    while i < x.len()
        invariant
            i <= x.len(),
            x.len() == y.len(),
            x@ == encode_utf8(a@),
            y@ == encode_utf8(b@),
            forall|j: int| 0 <= j < i ==> x@[j] == y@[j],
        decreases x.len() - i,
    {
        if x[i] != y[i] {
            return false;
        }
        i += 1;
    }
    assert(x@ =~= y@);
    true
}

/// The lower-case hexadecimal digit for a value below sixteen.
pub open spec fn hex_digit(value: nat) -> char {
    if value == 0 {
        '0'
    } else if value == 1 {
        '1'
    } else if value == 2 {
        '2'
    } else if value == 3 {
        '3'
    } else if value == 4 {
        '4'
    } else if value == 5 {
        '5'
    } else if value == 6 {
        '6'
    } else if value == 7 {
        '7'
    } else if value == 8 {
        '8'
    } else if value == 9 {
        '9'
    } else if value == 10 {
        'a'
    } else if value == 11 {
        'b'
    } else if value == 12 {
        'c'
    } else if value == 13 {
        'd'
    } else if value == 14 {
        'e'
    } else {
        'f'
    }
}

/// A number in lower-case hexadecimal, most significant digit first, without
/// leading zeros; zero is the single digit `0`.
pub open spec fn hex_digits(n: nat) -> Seq<char>
    decreases n,
{
    if n < 16 {
        seq![hex_digit(n)]
    } else {
        hex_digits(n / 16).push(hex_digit(n % 16))
    }
}

/// The value of a hexadecimal digit; zero for any other character.
pub open spec fn hex_digit_value(digit: char) -> nat {
    if digit == '1' {
        1
    } else if digit == '2' {
        2
    } else if digit == '3' {
        3
    } else if digit == '4' {
        4
    } else if digit == '5' {
        5
    } else if digit == '6' {
        6
    } else if digit == '7' {
        7
    } else if digit == '8' {
        8
    } else if digit == '9' {
        9
    } else if digit == 'a' {
        10
    } else if digit == 'b' {
        11
    } else if digit == 'c' {
        12
    } else if digit == 'd' {
        13
    } else if digit == 'e' {
        14
    } else if digit == 'f' {
        15
    } else {
        0
    }
}

/// The number that a text of hexadecimal digits stands for.
pub open spec fn hex_value(digits: Seq<char>) -> nat
    decreases digits.len(),
{
    if digits.len() == 0 {
        0
    } else {
        16 * hex_value(digits.drop_last()) + hex_digit_value(digits.last())
    }
}

/// Reading back the hexadecimal text of a number gives the number.
pub proof fn lemma_hex_value_of_digits(n: nat)
    ensures
        hex_value(hex_digits(n)) == n,
    decreases n,
{
    if n < 16 {
        let digits = seq![hex_digit(n)];
        assert(digits.drop_last() =~= Seq::<char>::empty());
        assert(digits.last() == hex_digit(n));
        assert(hex_value(digits.drop_last()) == 0);
    } else {
        let digits = hex_digits(n / 16).push(hex_digit(n % 16));
        assert(digits.drop_last() =~= hex_digits(n / 16));
        assert(digits.last() == hex_digit(n % 16));
        lemma_hex_value_of_digits(n / 16);
    }
}

/// Two numbers that differ have hexadecimal texts that differ.
pub proof fn lemma_hex_digits_differ(a: nat, b: nat)
    requires
        a != b,
    ensures
        hex_digits(a) != hex_digits(b),
{
    lemma_hex_value_of_digits(a);
    lemma_hex_value_of_digits(b);
}

/// The one-character text of a hexadecimal digit.
fn digit_text(value: u8) -> (text: &'static str)
    requires
        value < 16,
    ensures
        text@ == seq![hex_digit(value as nat)],
{
    let text = match value {
        0 => "0",
        1 => "1",
        2 => "2",
        3 => "3",
        4 => "4",
        5 => "5",
        6 => "6",
        7 => "7",
        8 => "8",
        9 => "9",
        10 => "a",
        11 => "b",
        12 => "c",
        13 => "d",
        14 => "e",
        _ => "f",
    };
    proof {
        reveal_strlit("0");
        reveal_strlit("1");
        reveal_strlit("2");
        reveal_strlit("3");
        reveal_strlit("4");
        reveal_strlit("5");
        reveal_strlit("6");
        reveal_strlit("7");
        reveal_strlit("8");
        reveal_strlit("9");
        reveal_strlit("a");
        reveal_strlit("b");
        reveal_strlit("c");
        reveal_strlit("d");
        reveal_strlit("e");
        reveal_strlit("f");
        assert(text@ =~= seq![hex_digit(value as nat)]);
    }
    text
}

/// Renders a number in lower-case hexadecimal.
pub fn to_hex(n: u128) -> (text: String)
    ensures
        text@ == hex_digits(n as nat),
{
    let mut rest: u128 = n;
    let mut tail = String::new();
    while rest >= 16
        invariant
            hex_digits(n as nat) == hex_digits(rest as nat) + tail@,
        decreases rest,
    {
        let low: u8 = (rest % 16) as u8;
        let ghost before = tail@;
        tail = digit_text(low).to_owned().concat(tail.as_str());
        proof {
            assert(hex_digits(rest as nat) == hex_digits((rest / 16) as nat).push(
                hex_digit((rest % 16) as nat),
            ));
            assert(hex_digits((rest / 16) as nat).push(hex_digit(low as nat)) + before
                =~= hex_digits((rest / 16) as nat) + (seq![hex_digit(low as nat)] + before));
        }
        rest = rest / 16;
    }
    let text = digit_text(rest as u8).to_owned().concat(tail.as_str());
    text
}

} // verus!
