use vstd::prelude::*;
use vstd::string::StringExecFns;

verus! {

/// The character that stands for a digit below ten.
pub open spec fn digit_char(digit: nat) -> char {
    if digit == 0 {
        '0'
    } else if digit == 1 {
        '1'
    } else if digit == 2 {
        '2'
    } else if digit == 3 {
        '3'
    } else if digit == 4 {
        '4'
    } else if digit == 5 {
        '5'
    } else if digit == 6 {
        '6'
    } else if digit == 7 {
        '7'
    } else if digit == 8 {
        '8'
    } else {
        '9'
    }
}

/// The decimal digits of a natural number, without leading zeros.
pub open spec fn decimal_digits(n: nat) -> Seq<char>
    decreases n,
{
    if n < 10 {
        seq![digit_char(n)]
    } else {
        decimal_digits(n / 10).push(digit_char(n % 10))
    }
}

/// A whole number in decimal notation, with a minus sign where it is negative.
pub open spec fn decimal_text(n: int) -> Seq<char> {
    if n < 0 {
        seq!['-'] + decimal_digits((-n) as nat)
    } else {
        decimal_digits(n as nat)
    }
}

/// The value of a hexadecimal digit, in either case.
pub open spec fn hex_digit(c: char) -> Option<nat> {
    if '0' <= c <= '9' {
        Some((c as nat - '0' as nat) as nat)
    } else if 'a' <= c <= 'f' {
        Some((c as nat - 'a' as nat + 10) as nat)
    } else if 'A' <= c <= 'F' {
        Some((c as nat - 'A' as nat + 10) as nat)
    } else {
        None
    }
}

/// The number that a run of hexadecimal digits stands for, if all of them are
/// such digits.
pub open spec fn hex_number(digits: Seq<char>) -> Option<nat>
    decreases digits.len(),
{
    if digits.len() == 0 {
        Some(0)
    } else {
        match (hex_number(digits.drop_last()), hex_digit(digits.last())) {
            (Some(value), Some(digit)) => Some(16 * value + digit),
            _ => None,
        }
    }
}

/// The number that `text` stands for in hexadecimal notation: an optional plus
/// sign, then at least one digit and nothing else, with a value that fits 32
/// bits.
pub open spec fn hex_u32(text: Seq<char>) -> Option<u32> {
    let digits = if text.len() > 0 && text[0] == '+' {
        text.skip(1)
    } else {
        text
    };
    if digits.len() == 0 {
        None
    } else {
        match hex_number(digits) {
            Some(value) => if value <= u32::MAX {
                Some(value as u32)
            } else {
                None
            },
            None => None,
        }
    }
}

/// `text` without a leading `prefix`, if it begins with it.
pub open spec fn without_prefix(text: Seq<char>, prefix: char) -> Option<Seq<char>> {
    if text.len() > 0 && text[0] == prefix {
        Some(text.skip(1))
    } else {
        None
    }
}

/// The items, with `separator` between each two of them.
pub open spec fn joined(items: Seq<Seq<char>>, separator: Seq<char>) -> Seq<char>
    decreases items.len(),
{
    if items.len() == 0 {
        Seq::empty()
    } else if items.len() == 1 {
        items[0]
    } else {
        joined(items.drop_last(), separator) + separator + items.last()
    }
}

/// `i128::to_string`: the number in decimal notation.
#[verifier::external_body]
pub(crate) fn decimal(n: i128) -> (res: String)
    ensures
        res@ == decimal_text(n as int),
{
    n.to_string()
}

/// `u32::from_str_radix` with radix 16: the number that the text stands for,
/// or nothing where the text is empty, holds anything but an optional plus sign
/// and hexadecimal digits, or stands for more than 32 bits hold.
#[verifier::external_body]
pub(crate) fn parse_hex_u32(text: &str) -> (res: Option<u32>)
    ensures
        res == hex_u32(text@),
{
    match u32::from_str_radix(text, 16) {
        Ok(value) => Some(value),
        Err(_) => None,
    }
}

/// `str::strip_prefix` with a character: the text behind the prefix, or
/// nothing where the text does not begin with it.
#[verifier::external_body]
pub(crate) fn strip_prefix_char(text: &str, prefix: char) -> (res: Option<&str>)
    ensures
        res is Some <==> without_prefix(text@, prefix) is Some,
        res is Some ==> res.unwrap()@ == without_prefix(text@, prefix).unwrap(),
{
    text.strip_prefix(prefix)
}

/// The items joined by `separator`.
pub fn join(items: &Vec<String>, separator: &str) -> (res: String)
    ensures
        res@ == joined(Seq::new(items@.len(), |i: int| items@[i]@), separator@),
{
    let ghost texts = Seq::new(items@.len(), |i: int| items@[i]@);
    let mut res = String::new();
    let mut i: usize = 0;
    while i < items.len()
        invariant
            i <= items@.len(),
            texts == Seq::new(items@.len(), |i: int| items@[i]@),
            res@ == joined(texts.take(i as int), separator@),
        decreases items@.len() - i,
    {
        if i > 0 {
            res.append(separator);
        }
        res.append(items[i].as_str());
        proof {
            let before = texts.take(i as int);
            let after = texts.take(i + 1);
            assert(after.drop_last() =~= before);
            assert(after.last() == items@[i as int]@);
            if i == 0 {
                assert(before =~= Seq::<Seq<char>>::empty());
                assert(after[0] == items@[0]@);
                assert(res@ =~= items@[0]@);
            }
        }
        i += 1;
    }
    assert(texts.take(i as int) =~= texts);
    res
}

} // verus!
