//! Numbers as text, and text as numbers.

use vstd::prelude::*;

verus! {

/// The sixteen digits, each as a one-character text.
pub const DIGITS: [&'static str; 16] = [
    "0", "1", "2", "3", "4", "5", "6", "7", "8", "9", "A", "B", "C", "D", "E", "F",
];

/// A digit's character.
pub open spec fn digit(value: int) -> char {
    if value < 10 {
        ('0' as int + value) as char
    } else {
        ('A' as int + value - 10) as char
    }
}

/// A number's last `places` digits in a base, the smallest last, zeros in
/// front.
pub open spec fn padded(value: int, base: int, places: nat) -> Seq<char>
    decreases places,
{
    if places == 0 {
        Seq::empty()
    } else {
        padded(value / base, base, (places - 1) as nat).push(digit(value % base))
    }
}

/// A number in decimal, without zeros in front.
pub open spec fn decimal(value: nat) -> Seq<char>
    decreases value,
{
    if value < 10 {
        seq![digit(value as int)]
    } else {
        decimal(value / 10).push(digit(value as int % 10))
    }
}

/// What a character counts for as a digit, in either case.
pub open spec fn worth(c: char) -> Option<int> {
    if '0' <= c && c <= '9' {
        Some(c as int - '0' as int)
    } else if 'A' <= c && c <= 'F' {
        Some(c as int - 'A' as int + 10)
    } else if 'a' <= c && c <= 'f' {
        Some(c as int - 'a' as int + 10)
    } else {
        None
    }
}

/// What a run of digits in a base comes to, if they all are.
pub open spec fn value_of(digits: Seq<char>, base: int) -> Option<int>
    decreases digits.len(),
{
    if digits.len() == 0 {
        Some(0)
    } else {
        match (value_of(digits.drop_last(), base), worth(digits.last())) {
            (Some(front), Some(last)) => if last < base {
                Some(front * base + last)
            } else {
                None
            },
            _ => None,
        }
    }
}

/// A text without the plus sign it may open with.
pub open spec fn unsigned(text: Seq<char>) -> Seq<char> {
    if text.len() > 0 && text[0] == '+' {
        text.drop_first()
    } else {
        text
    }
}

/// The number a text spells: at least one digit, behind a plus sign or not,
/// and no more than `most`.
pub open spec fn number(text: Seq<char>, base: int, most: int) -> Option<int> {
    let digits = unsigned(text);
    if digits.len() == 0 {
        None
    } else {
        match value_of(digits, base) {
            Some(value) => if value <= most {
                Some(value)
            } else {
                None
            },
            None => None,
        }
    }
}

proof fn lemma_digit_texts()
    ensures
        forall|value: int| 0 <= value < 16 ==> (#[trigger] DIGITS@[value])@ == seq![digit(value)],
{
    reveal_strlit("0");
    reveal_strlit("1");
    reveal_strlit("2");
    reveal_strlit("3");
    reveal_strlit("4");
    reveal_strlit("5");
    reveal_strlit("6");
    reveal_strlit("7");
    reveal_strlit("8");
    reveal_strlit("9");
    reveal_strlit("A");
    reveal_strlit("B");
    reveal_strlit("C");
    reveal_strlit("D");
    reveal_strlit("E");
    reveal_strlit("F");
    assert forall|value: int| 0 <= value < 16 implies (#[trigger] DIGITS@[value])@ == seq![
        digit(value),
    ] by {
        assert(DIGITS@[value]@ =~= seq![digit(value)]);
    }
}

/// Add one digit to a text.
fn append_digit(text: &mut String, value: u8)
    requires
        value < 16,
    ensures
        final(text)@ == old(text)@.push(digit(value as int)),
{
    proof {
        lemma_digit_texts();
    }
    text.append(DIGITS[value as usize]);
    assert(text@ =~= old(text)@.push(digit(value as int)));
}

/// A byte as two hexadecimal digits.
pub fn hex_byte(value: u8) -> (text: String)
    ensures
        text@ == padded(value as int, 16, 2),
{
    let mut text = String::new();
    append_digit(&mut text, value / 16);
    append_digit(&mut text, value % 16);
    proof {
        reveal_with_fuel(padded, 3);
        assert(text@ =~= padded(value as int, 16, 2));
    }
    text
}

/// A word as four hexadecimal digits.
pub fn hex_word(value: u16) -> (text: String)
    ensures
        text@ == padded(value as int, 16, 4),
{
    let mut text = String::new();
    append_digit(&mut text, (value / 4096) as u8);
    append_digit(&mut text, (value / 256 % 16) as u8);
    append_digit(&mut text, (value / 16 % 16) as u8);
    append_digit(&mut text, (value % 16) as u8);
    proof {
        reveal_with_fuel(padded, 5);
        assert(text@ =~= padded(value as int, 16, 4));
    }
    text
}

/// A byte as eight binary digits.
pub fn binary_byte(value: u8) -> (text: String)
    ensures
        text@ == padded(value as int, 2, 8),
{
    let mut text = String::new();
    append_digit(&mut text, value / 128);
    append_digit(&mut text, value / 64 % 2);
    append_digit(&mut text, value / 32 % 2);
    append_digit(&mut text, value / 16 % 2);
    append_digit(&mut text, value / 8 % 2);
    append_digit(&mut text, value / 4 % 2);
    append_digit(&mut text, value / 2 % 2);
    append_digit(&mut text, value % 2);
    proof {
        reveal_with_fuel(padded, 9);
        assert(text@ =~= padded(value as int, 2, 8));
    }
    text
}

/// A number in decimal.
pub fn decimal_number(value: u64) -> (text: String)
    ensures
        text@ == decimal(value as nat),
    decreases value,
{
    let mut text = if value < 10 {
        String::new()
    } else {
        decimal_number(value / 10)
    };
    append_digit(&mut text, (value % 10) as u8);
    assert(text@ =~= decimal(value as nat));
    text
}

/// What a character counts for as a digit, in either case.
fn digit_worth(c: char) -> (value: Option<u64>)
    ensures
        match value {
            Some(value) => worth(c) == Some(value as int) && value < 16,
            None => worth(c) is None,
        },
{
    if '0' <= c && c <= '9' {
        Some(c as u64 - '0' as u64)
    } else if 'A' <= c && c <= 'F' {
        Some(c as u64 - 'A' as u64 + 10)
    } else if 'a' <= c && c <= 'f' {
        Some(c as u64 - 'a' as u64 + 10)
    } else {
        None
    }
}

/// A run of digits that comes to too much, or is none, does so however it
/// goes on.
proof fn lemma_prefix_decides(digits: Seq<char>, base: int, n: int, most: int)
    requires
        0 <= n <= digits.len(),
        base >= 1,
        most >= 0,
        match value_of(digits.take(n), base) {
            Some(value) => value > most,
            None => true,
        },
    ensures
        match value_of(digits, base) {
            Some(value) => value > most,
            None => true,
        },
    decreases digits.len(),
{
    if n < digits.len() {
        assert(digits.drop_last().take(n) =~= digits.take(n));
        lemma_prefix_decides(digits.drop_last(), base, n, most);
        if let Some(front) = value_of(digits.drop_last(), base) {
            assert(front * base >= front) by (nonlinear_arith)
                requires
                    base >= 1,
                    front > most,
                    most >= 0,
            ;
        }
    } else {
        assert(digits.take(n) =~= digits);
    }
}

/// The number a text spells in a base, if it spells one and that is no more
/// than `most`.
pub fn parse_number(text: &str, base: u64, most: u64) -> (value: Option<u64>)
    requires
        2 <= base <= 16,
    ensures
        match value {
            Some(value) => number(text@, base as int, most as int) == Some(value as int),
            None => number(text@, base as int, most as int) is None,
        },
{
    let len = text.unicode_len();
    let start: usize = if len > 0 && text.get_char(0) == '+' {
        1
    } else {
        0
    };
    let ghost digits = unsigned(text@);
    assert(digits =~= text@.subrange(start as int, len as int));
    if start == len {
        return None;
    }
    let mut i: usize = start;
    let mut total: u64 = 0;
    proof {
        assert(digits.take(0) =~= Seq::<char>::empty());
    }
    while i < len
        invariant
            start <= i <= len,
            start <= 1,
            len == text@.len(),
            start < len,
            digits == unsigned(text@),
            digits == text@.subrange(start as int, len as int),
            2 <= base <= 16,
            total <= most,
            value_of(digits.take(i - start), base as int) == Some(total as int),
        decreases len - i,
    {
        let c = text.get_char(i);
        let ghost n = i - start;
        proof {
            assert(digits.take(n + 1).drop_last() =~= digits.take(n));
            assert(digits.take(n + 1).last() == c);
        }
        match digit_worth(c) {
            Some(worth) => {
                if worth >= base {
                    proof {
                        lemma_prefix_decides(digits, base as int, n + 1, most as int);
                    }
                    return None;
                }
                assert(total * base <= 0xFFFF_FFFF_FFFF_FFFF * 16) by (nonlinear_arith)
                    requires
                        total <= 0xFFFF_FFFF_FFFF_FFFF,
                        base <= 16,
                ;
                let next: u128 = total as u128 * base as u128 + worth as u128;
                if next > most as u128 {
                    proof {
                        lemma_prefix_decides(digits, base as int, n + 1, most as int);
                    }
                    return None;
                }
                total = next as u64;
            },
            None => {
                proof {
                    lemma_prefix_decides(digits, base as int, n + 1, most as int);
                }
                return None;
            },
        }
        i = i + 1;
    }
    proof {
        assert(digits.take(len - start) =~= digits);
    }
    Some(total)
}

/// Whether a text is a certain word.
pub fn is_word(text: &String, word: &str) -> (same: bool)
    ensures
        same == (text@ == word@),
{
    *text == word.to_owned()
}

/// What is written in decimal reads back as the number it was.
pub proof fn law_decimal_reads_back(value: nat)
    ensures
        value_of(decimal(value), 10) == Some(value as int),
        number(decimal(value), 10, value as int) == Some(value as int),
    decreases value,
{
    assert(worth(digit(value as int % 10)) == Some(value as int % 10));
    assert(decimal(value).last() == digit(value as int % 10));
    if value < 10 {
        assert(decimal(value).drop_last() =~= Seq::<char>::empty());
        assert(value_of(decimal(value).drop_last(), 10) == Some(0int));
    } else {
        law_decimal_reads_back(value / 10);
        assert(decimal(value).drop_last() =~= decimal(value / 10));
    }
    lemma_decimal_opens_with_a_digit(value);
}

proof fn lemma_decimal_opens_with_a_digit(value: nat)
    ensures
        decimal(value).len() > 0,
        decimal(value)[0] != '+',
    decreases value,
{
    if value >= 10 {
        lemma_decimal_opens_with_a_digit(value / 10);
    }
}

/// A number below a power of ten has no more digits than the power.
pub proof fn law_decimal_is_short(value: nat, places: nat)
    requires
        places > 0,
        value < vstd::arithmetic::power::pow(10, places),
    ensures
        decimal(value).len() <= places,
    decreases places,
{
    reveal(vstd::arithmetic::power::pow);
    if value >= 10 {
        vstd::arithmetic::power::lemma_pow1(10);
        law_decimal_is_short(value / 10, (places - 1) as nat);
    }
}

/// What is written in hexadecimal reads back as the number it was, as far as
/// it fits the places.
pub proof fn law_hexadecimal_reads_back(value: int, places: nat)
    requires
        0 <= value,
    ensures
        value_of(padded(value, 16, places), 16) is Some,
        padded(value, 16, places).len() == places,
        value < vstd::arithmetic::power::pow(16, places) ==> value_of(padded(value, 16, places), 16)
            == Some(value),
    decreases places,
{
    vstd::arithmetic::power::lemma_pow0(16);
    if places > 0 {
        let text = padded(value, 16, places);
        law_hexadecimal_reads_back(value / 16, (places - 1) as nat);
        assert(text.drop_last() =~= padded(value / 16, 16, (places - 1) as nat));
        assert(worth(digit(value % 16)) == Some(value % 16));
        reveal(vstd::arithmetic::power::pow);
    }
}

/// The digits, in order.
pub proof fn law_digits_in_order(value: int)
    requires
        0 <= value < 16,
    ensures
        digit(value) == "0123456789ABCDEF"@[value],
        worth(digit(value)) == Some(value),
{
    reveal_strlit("0123456789ABCDEF");
}

/// What a character is worth: the decimal digits, and the first six letters
/// in either case, and no other.
pub proof fn law_worth_of_a_character(c: char)
    ensures
        '0' <= c && c <= '9' ==> worth(c) == Some(c as int - 48),
        'A' <= c && c <= 'F' ==> worth(c) == Some(c as int - 55),
        'a' <= c && c <= 'f' ==> worth(c) == Some(c as int - 87),
        (c as int) < 48 || 57 < (c as int) < 65 || 70 < (c as int) < 97 || 102 < (c as int)
            ==> worth(c) is None,
{
}

/// A byte and a word in hexadecimal, digit by digit, the largest first.
pub proof fn law_hexadecimal_digit_by_digit(value: int)
    requires
        0 <= value < 0x10000,
    ensures
        padded(value, 16, 2) == seq![
            "0123456789ABCDEF"@[value / 16 % 16],
            "0123456789ABCDEF"@[value % 16],
        ],
        padded(value, 16, 4) == seq![
            "0123456789ABCDEF"@[value / 4096],
            "0123456789ABCDEF"@[value / 256 % 16],
            "0123456789ABCDEF"@[value / 16 % 16],
            "0123456789ABCDEF"@[value % 16],
        ],
{
    reveal_with_fuel(padded, 5);
    law_digits_in_order(value / 4096);
    law_digits_in_order(value / 256 % 16);
    law_digits_in_order(value / 16 % 16);
    law_digits_in_order(value % 16);
    assert(value / 16 / 16 % 16 == value / 256 % 16);
    assert(value / 16 / 16 / 16 % 16 == value / 4096);
}

/// A byte in binary: eight ones and zeros, the largest place first.
pub proof fn law_binary_digit_by_digit(value: int, place: int)
    requires
        0 <= value < 256,
        0 <= place < 8,
    ensures
        padded(value, 2, 8).len() == 8,
        padded(value, 2, 8)[7 - place] == (if value / vstd::arithmetic::power::pow(
            2,
            place as nat,
        ) % 2 == 1 {
            '1'
        } else {
            '0'
        }),
{
    reveal_with_fuel(padded, 9);
    reveal_with_fuel(vstd::arithmetic::power::pow, 9);
    vstd::arithmetic::power2::lemma2_to64();
    assert(value / 2 / 2 == value / 4);
    assert(value / 4 / 2 == value / 8);
    assert(value / 8 / 2 == value / 16);
    assert(value / 16 / 2 == value / 32);
    assert(value / 32 / 2 == value / 64);
    assert(value / 64 / 2 == value / 128);
}

/// A number in decimal: its last digit stands last, what is left of it stands
/// before that, and nothing stands before a number of one digit.
pub proof fn law_decimal_digit_by_digit(value: nat)
    ensures
        decimal(value).last() == "0123456789"@[value as int % 10],
        value < 10 ==> decimal(value).len() == 1,
        value >= 10 ==> decimal(value).drop_last() == decimal(value / 10),
{
    reveal_strlit("0123456789");
    if value >= 10 {
        assert(decimal(value).drop_last() =~= decimal(value / 10));
    }
}

/// What a text spells: a plus sign in front counts for nothing, a text of
/// digits is worth its front times the base and its last digit, no digits at
/// all spell nothing, and neither does a digit that the base lacks or a
/// number past the limit.
pub proof fn law_texts_spell_numbers(digits: Seq<char>, c: char, base: int, most: int)
    requires
        digits.len() == 0 || digits[0] != '+',
        digits.len() == 0 ==> c != '+',
        2 <= base <= 16,
    ensures
        number(Seq::empty(), base, most) is None,
        number(seq!['+'], base, most) is None,
        number(seq!['+'] + digits.push(c), base, most) == number(digits.push(c), base, most),
        value_of(Seq::empty(), base) == Some(0int),
        number(digits.push(c), base, most) == match (value_of(digits, base), worth(c)) {
            (Some(front), Some(last)) => if last < base && base * front + last <= most {
                Some(base * front + last)
            } else {
                None
            },
            _ => None,
        },
{
    let text = digits.push(c);
    assert(unsigned(text) =~= text);
    assert(unsigned(seq!['+'] + text) =~= text);
    assert(unsigned(seq!['+']) =~= Seq::empty());
    assert(text.drop_last() =~= digits);
    if let Some(front) = value_of(digits, base) {
        assert(front * base == base * front) by (nonlinear_arith);
    }
}

} // verus!
