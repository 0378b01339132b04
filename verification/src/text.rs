//! Numbers written out as text.
use vstd::prelude::*;

verus! {

/// The character for a digit below sixteen, letters in lower case.
pub open spec fn digit_char(digit: int) -> char {
    if digit < 10 {
        ('0' as int + digit) as char
    } else {
        ('a' as int + digit - 10) as char
    }
}

/// `n` in decimal, without leading zeros.
pub open spec fn decimal(n: nat) -> Seq<char>
    decreases n,
{
    if n < 10 {
        seq![digit_char(n as int)]
    } else {
        decimal(n / 10).push(digit_char((n % 10) as int))
    }
}

/// A byte as two hexadecimal digits in lower case.
pub open spec fn hex_byte(byte: u8) -> Seq<char> {
    seq![digit_char(byte as int / 16), digit_char(byte as int % 16)]
}

/// Appends one digit below sixteen.
pub fn append_digit(out: &mut String, digit: u8)
    requires
        digit < 16,
    ensures
        final(out)@ == old(out)@.push(digit_char(digit as int)),
{
    let text = match digit {
        0 => "0",
        1 => "1",
        2 => "2",
        3 => "3",
        4 => "4",
        5 => "5",
        6 => "6",
        7 => "7",
        8 => "8",
        9 => "9",
        10 => "a",
        11 => "b",
        12 => "c",
        13 => "d",
        14 => "e",
        _ => "f",
    };
    proof {
        reveal_strlit("0");
        reveal_strlit("1");
        reveal_strlit("2");
        reveal_strlit("3");
        reveal_strlit("4");
        reveal_strlit("5");
        reveal_strlit("6");
        reveal_strlit("7");
        reveal_strlit("8");
        reveal_strlit("9");
        reveal_strlit("a");
        reveal_strlit("b");
        reveal_strlit("c");
        reveal_strlit("d");
        reveal_strlit("e");
        reveal_strlit("f");
        assert(text@ =~= seq![digit_char(digit as int)]);
        assert(out@ + text@ =~= out@.push(digit_char(digit as int)));
    }
    out.append(text);
}

/// Appends `n` in decimal.
pub fn append_decimal(out: &mut String, n: u64)
    ensures
        final(out)@ == old(out)@ + decimal(n as nat),
    decreases n,
{
    if n >= 10 {
        append_decimal(out, n / 10);
    }
    append_digit(out, (n % 10) as u8);
    assert(out@ =~= old(out)@ + decimal(n as nat));
}

/// Appends a byte as two hexadecimal digits.
pub fn append_hex_byte(out: &mut String, byte: u8)
    ensures
        final(out)@ == old(out)@ + hex_byte(byte),
{
    append_digit(out, byte / 16);
    append_digit(out, byte % 16);
    assert(out@ =~= old(out)@ + hex_byte(byte));
}

/// Different digits have different characters.
proof fn lemma_digit_char_injective(a: int, b: int)
    requires
        0 <= a < 16,
        0 <= b < 16,
        digit_char(a) == digit_char(b),
    ensures
        a == b,
{
}

/// Different numbers are written differently.
pub proof fn law_decimal_injective(a: nat, b: nat)
    requires
        decimal(a) == decimal(b),
    ensures
        a == b,
    decreases a,
{
    if a < 10 && b < 10 {
        assert(decimal(a)[0] == digit_char(a as int));
        assert(decimal(b)[0] == digit_char(b as int));
        lemma_digit_char_injective(a as int, b as int);
    } else if a >= 10 && b >= 10 {
        assert(decimal(a).last() == digit_char((a % 10) as int));
        assert(decimal(b).last() == digit_char((b % 10) as int));
        lemma_digit_char_injective((a % 10) as int, (b % 10) as int);
        assert(decimal(a).drop_last() =~= decimal(a / 10));
        assert(decimal(b).drop_last() =~= decimal(b / 10));
        law_decimal_injective(a / 10, b / 10);
    } else {
        lemma_decimal_len(a);
        lemma_decimal_len(b);
    }
}

/// A number has one digit if and only if it lies below ten.
proof fn lemma_decimal_len(n: nat)
    ensures
        decimal(n).len() >= 1,
        decimal(n).len() == 1 <==> n < 10,
    decreases n,
{
    if n >= 10 {
        lemma_decimal_len(n / 10);
    }
}

/// Different bytes have different hexadecimal digits.
pub proof fn law_hex_byte_injective(a: u8, b: u8)
    requires
        hex_byte(a) == hex_byte(b),
    ensures
        a == b,
{
    assert(hex_byte(a)[0] == hex_byte(b)[0]);
    assert(hex_byte(a)[1] == hex_byte(b)[1]);
    lemma_digit_char_injective(a as int / 16, b as int / 16);
    lemma_digit_char_injective(a as int % 16, b as int % 16);
}

/// The value of a decimal digit.
pub open spec fn digit_value(digit: char) -> Option<int> {
    if '0' <= digit && digit <= '9' {
        Some(digit as int - '0' as int)
    } else {
        None
    }
}

/// The value of a hexadecimal digit, letters in lower case.
pub open spec fn hex_value(digit: char) -> Option<int> {
    if '0' <= digit && digit <= '9' {
        Some(digit as int - '0' as int)
    } else if 'a' <= digit && digit <= 'f' {
        Some(digit as int - 'a' as int + 10)
    } else {
        None
    }
}

/// The number that decimal digits make, or nothing where some character is
/// no digit.
pub open spec fn parse(digits: Seq<char>) -> Option<int>
    decreases digits.len(),
{
    if digits.len() == 0 {
        Some(0)
    } else {
        match (parse(digits.drop_last()), digit_value(digits.last())) {
            (Some(high), Some(low)) => Some(10 * high + low),
            _ => None,
        }
    }
}

/// Whether a text is how a number is written in decimal: digits that make
/// the number, without a leading zero unless it is the only digit.
pub open spec fn is_decimal_for(digits: Seq<char>, n: nat) -> bool {
    &&& parse(digits) == Some(n as int)
    &&& digits.len() > 0
    &&& digits[0] == '0' ==> digits.len() == 1
}

/// What is written for a number reads as that number.
pub proof fn law_decimal_spells_number(n: nat)
    ensures
        is_decimal_for(decimal(n), n),
    decreases n,
{
    reveal_with_fuel(parse, 2);
    let digits = decimal(n);
    if n < 10 {
        assert(digits.drop_last() =~= Seq::<char>::empty());
        assert(parse(Seq::<char>::empty()) == Some(0int));
    } else {
        law_decimal_spells_number(n / 10);
        assert(digits.drop_last() =~= decimal(n / 10));
        assert(digits[0] == decimal(n / 10)[0]);
        if n / 10 < 10 {
            assert(decimal(n / 10)[0] == digit_char((n / 10) as int));
        } else {
            lemma_decimal_len(n / 10);
        }
    }
}

/// What is written for a byte is two digits that make the byte.
pub proof fn law_hex_byte_spells_byte(byte: u8)
    ensures
        hex_byte(byte).len() == 2,
        hex_value(hex_byte(byte)[0]) is Some,
        hex_value(hex_byte(byte)[1]) is Some,
        byte == 16 * hex_value(hex_byte(byte)[0])->0 + hex_value(hex_byte(byte)[1])->0,
{
}

/// What is written for a digit below sixteen reads as that digit.
pub proof fn law_digit_spells_value(digit: int)
    requires
        0 <= digit < 16,
    ensures
        hex_value(digit_char(digit)) == Some(digit),
        digit < 10 ==> digit_value(digit_char(digit)) == Some(digit),
{
}

} // verus!
