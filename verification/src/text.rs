//! Numbers as text: the decimal numbers that go into generated code, and the
//! integer literal that fixes the tag of a variant.

use vstd::prelude::*;
use vstd::string::{StrSliceExecFns, StringExecFns};

verus! {

/// The character of a decimal digit.
pub open spec fn digit_char(d: int) -> char {
    if d == 0 {
        '0'
    } else if d == 1 {
        '1'
    } else if d == 2 {
        '2'
    } else if d == 3 {
        '3'
    } else if d == 4 {
        '4'
    } else if d == 5 {
        '5'
    } else if d == 6 {
        '6'
    } else if d == 7 {
        '7'
    } else if d == 8 {
        '8'
    } else {
        '9'
    }
}

/// A number in decimal, without sign, separators or leading zeros.
pub open spec fn decimal(n: nat) -> Seq<char>
    decreases n,
{
    if n < 10 {
        seq![digit_char(n as int)]
    } else {
        decimal(n / 10).push(digit_char((n % 10) as int))
    }
}

/// The text of one decimal digit.
fn digit_str(d: usize) -> (s: &'static str)
    requires
        d < 10,
    ensures
        s@ == seq![digit_char(d as int)],
{
    proof {
        reveal_strlit("0");
        reveal_strlit("1");
        reveal_strlit("2");
        reveal_strlit("3");
        reveal_strlit("4");
        reveal_strlit("5");
        reveal_strlit("6");
        reveal_strlit("7");
        reveal_strlit("8");
        reveal_strlit("9");
    }
    let s = if d == 0 {
        "0"
    } else if d == 1 {
        "1"
    } else if d == 2 {
        "2"
    } else if d == 3 {
        "3"
    } else if d == 4 {
        "4"
    } else if d == 5 {
        "5"
    } else if d == 6 {
        "6"
    } else if d == 7 {
        "7"
    } else if d == 8 {
        "8"
    } else {
        "9"
    };
    assert(s@ =~= seq![digit_char(d as int)]);
    s
}

/// Writes `n` in decimal, as `{}` formats an unsigned integer.
pub fn decimal_string(n: usize) -> (s: String)
    ensures
        s@ == decimal(n as nat),
    decreases n,
{
    if n < 10 {
        String::from_str(digit_str(n))
    } else {
        let mut s = decimal_string(n / 10);
        s.append(digit_str(n % 10));
        s
    }
}

/// The number that a character stands for as a digit, up to the digits of
/// base sixteen.
pub open spec fn digit_value(c: char) -> Option<nat> {
    if '0' <= c && c <= '9' {
        Some((c as nat - '0' as nat) as nat)
    } else if 'a' <= c && c <= 'f' {
        Some((c as nat - 'a' as nat + 10) as nat)
    } else if 'A' <= c && c <= 'F' {
        Some((c as nat - 'A' as nat + 10) as nat)
    } else {
        None
    }
}

/// Whether a character is a digit of the given base.
pub open spec fn is_digit(c: char, radix: nat) -> bool {
    digit_value(c) is Some && digit_value(c).unwrap() < radix
}

/// Whether a text is made of digits of the given base and of `_`, and holds
/// one digit at least.
pub open spec fn is_digits(text: Seq<char>, radix: nat) -> bool {
    &&& forall|i: int| 0 <= i < text.len() ==> #[trigger] text[i] == '_' || is_digit(text[i], radix)
    &&& exists|i: int| 0 <= i < text.len() && #[trigger] text[i] != '_'
}

/// The number that a text of digits stands for in the given base. A `_`
/// between the digits does not count, nor do zeros in front.
pub open spec fn number(text: Seq<char>, radix: nat) -> nat
    decreases text.len(),
{
    if text.len() == 0 {
        0
    } else if text.last() == '_' {
        number(text.drop_last(), radix)
    } else {
        radix * number(text.drop_last(), radix) + match digit_value(text.last()) {
            Some(digit) => digit,
            None => 0,
        }
    }
}

/// Whether a literal ends in the suffix of the type of a tag, `u32`.
pub open spec fn has_tag_suffix(text: Seq<char>) -> bool {
    text.len() >= 3 && text[text.len() - 3] == 'u' && text[text.len() - 2] == '3' && text[text.len()
        - 1] == '2'
}

/// A literal without its suffix.
pub open spec fn literal_body(text: Seq<char>) -> Seq<char> {
    if has_tag_suffix(text) {
        text.take(text.len() - 3)
    } else {
        text
    }
}

/// The base that a literal is written in: sixteen after `0x`, eight after
/// `0o`, two after `0b`, and ten without such a prefix.
pub open spec fn literal_radix(body: Seq<char>) -> nat {
    if body.len() >= 2 && body[0] == '0' && body[1] == 'x' {
        16
    } else if body.len() >= 2 && body[0] == '0' && body[1] == 'o' {
        8
    } else if body.len() >= 2 && body[0] == '0' && body[1] == 'b' {
        2
    } else {
        10
    }
}

/// The digits of a literal, after the prefix of its base.
pub open spec fn literal_digits(body: Seq<char>) -> Seq<char> {
    if literal_radix(body) == 10 {
        body
    } else {
        body.skip(2)
    }
}

/// Whether a text is an integer literal that can fix a tag: digits of its
/// base, with `_` between them at will, and no suffix or the suffix `u32`.
/// A decimal literal begins with a digit.
pub open spec fn is_tag_literal(text: Seq<char>) -> bool {
    let body = literal_body(text);
    &&& is_digits(literal_digits(body), literal_radix(body))
    &&& literal_radix(body) == 10 ==> body[0] != '_'
}

/// The number that an integer literal stands for.
pub open spec fn tag_literal_value(text: Seq<char>) -> nat {
    number(literal_digits(literal_body(text)), literal_radix(literal_body(text)))
}

/// What is written in decimal is read back as the same number.
pub proof fn decimal_is_read_back(n: nat)
    ensures
        is_tag_literal(decimal(n)),
        tag_literal_value(decimal(n)) == n,
{
    let text = decimal(n);
    lemma_decimal_digits(n);
    assert(!has_tag_suffix(text)) by {
        if text.len() >= 3 {
            assert(is_digit(text[text.len() - 3], 10));
        }
    }
    assert(literal_radix(text) == 10) by {
        if text.len() >= 2 {
            assert(is_digit(text[1], 10));
        }
    }
    assert(is_digit(text[0], 10));
    assert(text[0] != '_');
}

/// The decimal text of a number is made of decimal digits and stands for
/// the number.
proof fn lemma_decimal_digits(n: nat)
    ensures
        decimal(n).len() > 0,
        forall|i: int| 0 <= i < decimal(n).len() ==> is_digit(#[trigger] decimal(n)[i], 10),
        number(decimal(n), 10) == n,
    decreases n,
{
    let digit = (if n < 10 {
        n
    } else {
        n % 10
    }) as int;
    assert(decimal(n).last() == digit_char(digit));
    assert(is_digit(digit_char(digit), 10) && digit_value(digit_char(digit)) == Some(
        digit as nat,
    ));
    if n >= 10 {
        lemma_decimal_digits(n / 10);
        assert(decimal(n).drop_last() =~= decimal(n / 10));
    } else {
        assert(decimal(n).drop_last() =~= Seq::<char>::empty());
        assert(number(decimal(n).drop_last(), 10) == 0);
    }
}

/// A number of more digits is no smaller than the number of its first digits.
proof fn lemma_number_grows(text: Seq<char>, radix: nat, shorter: int)
    requires
        0 <= shorter <= text.len(),
        radix >= 1,
    ensures
        number(text.take(shorter), radix) <= number(text, radix),
    decreases text.len() - shorter,
{
    if shorter < text.len() {
        lemma_number_grows(text, radix, shorter + 1);
        let longer = text.take(shorter + 1);
        assert(longer.drop_last() =~= text.take(shorter));
        assert(number(longer.drop_last(), radix) <= radix * number(longer.drop_last(), radix))
            by (nonlinear_arith)
            requires
                radix >= 1,
        ;
    } else {
        assert(text.take(shorter) =~= text);
    }
}

/// The value of a character as a digit of the given base, if it is one.
fn digit_of(c: char, radix: u64) -> (digit: Option<u64>)
    requires
        radix <= 16,
    ensures
        digit is Some <==> is_digit(c, radix as nat),
        digit matches Some(value) ==> digit_value(c) == Some(value as nat) && value < radix,
{
    let value = if '0' <= c && c <= '9' {
        (c as u64) - ('0' as u64)
    } else if 'a' <= c && c <= 'f' {
        (c as u64) - ('a' as u64) + 10
    } else if 'A' <= c && c <= 'F' {
        (c as u64) - ('A' as u64) + 10
    } else {
        return None;
    };
    if value < radix {
        Some(value)
    } else {
        None
    }
}

/// Reads the tag that a variant fixes from the literal as it is written: an
/// integer literal in base ten, sixteen, eight or two, without a suffix or
/// with the suffix `u32`. There is no tag where the text is no such literal
/// or the number does not fit the 32 bits of a tag.
pub fn tag_literal(text: &str) -> (tag: Option<u32>)
    ensures
        tag is Some <==> is_tag_literal(text@) && tag_literal_value(text@) <= u32::MAX,
        tag matches Some(value) ==> value == tag_literal_value(text@),
{
    let length = text.unicode_len();
    let end = if length >= 3 && text.get_char(length - 3) == 'u' && text.get_char(length - 2)
        == '3' && text.get_char(length - 1) == '2' {
        length - 3
    } else {
        length
    };
    let ghost body = literal_body(text@);
    assert(body =~= text@.take(end as int));
    let prefix = if end >= 2 && text.get_char(0) == '0' {
        text.get_char(1)
    } else {
        '0'
    };
    let radix: u64 = if prefix == 'x' {
        16
    } else if prefix == 'o' {
        8
    } else if prefix == 'b' {
        2
    } else {
        10
    };
    let start: usize = if radix == 10 {
        0
    } else {
        2
    };
    assert(radix == literal_radix(body));
    let ghost digits = literal_digits(body);
    assert(digits =~= text@.subrange(start as int, end as int));
    if radix == 10 && end > 0 && text.get_char(0) == '_' {
        return None;
    }
    let mut value: u64 = 0;
    let mut seen = false;
    let mut index: usize = start;
    while index < end
        invariant
            start <= index <= end <= text@.len(),
            radix == 2 || radix == 8 || radix == 10 || radix == 16,
            radix == literal_radix(literal_body(text@)),
            digits == literal_digits(literal_body(text@)),
            digits == text@.subrange(start as int, end as int),
            value == number(digits.take(index - start), radix as nat),
            value <= u32::MAX,
            forall|i: int|
                0 <= i < index - start ==> #[trigger] digits[i] == '_' || is_digit(
                    digits[i],
                    radix as nat,
                ),
            seen <==> exists|i: int| 0 <= i < index - start && #[trigger] digits[i] != '_',
        decreases end - index,
    {
        let c = text.get_char(index);
        let ghost place = index - start;
        assert(digits[place] == c);
        assert(digits.take(place + 1).drop_last() =~= digits.take(place));
        assert(digits.take(place + 1).last() == c);
        if c != '_' {
            match digit_of(c, radix) {
                None => {
                    assert(!(digits[place] == '_' || is_digit(digits[place], radix as nat)));
                    return None;
                },
                Some(digit) => {
                    assert(radix * value + digit == radix as nat * number(
                        digits.take(place),
                        radix as nat,
                    ) + digit) by (nonlinear_arith)
                        requires
                            value == number(digits.take(place), radix as nat),
                    ;
                    assert(radix * value <= 16 * 0xffff_ffff) by (nonlinear_arith)
                        requires
                            radix <= 16,
                            value <= 0xffff_ffff,
                    ;
                    value = radix * value + digit;
                    seen = true;
                    if value > 0xffff_ffff {
                        proof {
                            lemma_number_grows(digits, radix as nat, place + 1);
                        }
                        return None;
                    }
                },
            }
        }
        index += 1;
    }
    assert(digits.take(end - start) =~= digits);
    if seen {
        Some(value as u32)
    } else {
        None
    }
}

} // verus!
