//! Decimal numbers as text: how a number is written, and which texts are read
//! back as one.

use vstd::prelude::*;
use vstd::string::*;

verus! {

/// The character of a single digit.
pub open spec fn digit_char(d: nat) -> char {
    (48 + d) as char
}

/// Whether a character is one of the ten ASCII digits.
pub open spec fn is_digit(c: char) -> bool {
    48 <= c as int <= 57
}

/// What a digit stands for.
pub open spec fn digit_value(c: char) -> nat {
    (c as int - 48) as nat
}

/// A number in decimal, without leading zeros.
pub open spec fn decimal(n: nat) -> Seq<char>
    decreases n,
{
    if n < 10 {
        seq![digit_char(n)]
    } else {
        decimal(n / 10).push(digit_char(n % 10))
    }
}

/// A number in decimal, with a minus sign where it is negative.
pub open spec fn signed_decimal(i: int) -> Seq<char> {
    if i < 0 {
        seq!['-'] + decimal((-i) as nat)
    } else {
        decimal(i as nat)
    }
}

/// Whether a text holds digits alone.
pub open spec fn all_digits(s: Seq<char>) -> bool {
    forall|i: int| 0 <= i < s.len() ==> is_digit(#[trigger] s[i])
}

/// The number that a row of digits stands for; leading zeros do not count.
pub open spec fn digits_value(s: Seq<char>) -> nat
    decreases s.len(),
{
    if s.len() == 0 {
        0
    } else {
        10 * digits_value(s.drop_last()) + digit_value(s.last())
    }
}

/// The number that a text without a sign stands for: at least one digit, and
/// nothing else.
pub open spec fn magnitude(s: Seq<char>) -> Option<nat> {
    if s.len() > 0 && all_digits(s) {
        Some(digits_value(s))
    } else {
        None
    }
}

/// The number that a text stands for where one sign, plus or minus, may stand
/// before the digits.
pub open spec fn signed_value(s: Seq<char>) -> Option<int> {
    if s.len() > 0 && s[0] == '-' {
        match magnitude(s.skip(1)) {
            Some(m) => Some(-(m as int)),
            None => None,
        }
    } else {
        match unsigned_value(s) {
            Some(m) => Some(m as int),
            None => None,
        }
    }
}

/// The number that a text stands for where only a plus sign may stand before the
/// digits.
pub open spec fn unsigned_value(s: Seq<char>) -> Option<nat> {
    if s.len() > 0 && s[0] == '+' {
        magnitude(s.skip(1))
    } else {
        magnitude(s)
    }
}

/// The 32-bit number that a text stands for, if it stands for one.
pub open spec fn parsed_i32(s: Seq<char>) -> Option<i32> {
    match signed_value(s) {
        Some(v) => if i32::MIN <= v <= i32::MAX {
            Some(v as i32)
        } else {
            None
        },
        None => None,
    }
}

/// The machine-sized count that a text stands for, if it stands for one.
pub open spec fn parsed_usize(s: Seq<char>) -> Option<usize> {
    match unsigned_value(s) {
        Some(v) => if v <= usize::MAX {
            Some(v as usize)
        } else {
            None
        },
        None => None,
    }
}

/// The text of one digit.
fn digit_text(d: u64) -> (text: &'static str)
    requires
        d < 10,
    ensures
        text@ == seq![digit_char(d as nat)],
{
    proof {
        reveal_strlit("0");
        reveal_strlit("1");
        reveal_strlit("2");
        reveal_strlit("3");
        reveal_strlit("4");
        reveal_strlit("5");
        reveal_strlit("6");
        reveal_strlit("7");
        reveal_strlit("8");
        reveal_strlit("9");
    }
    let text: &'static str = match d {
        0 => "0",
        1 => "1",
        2 => "2",
        3 => "3",
        4 => "4",
        5 => "5",
        6 => "6",
        7 => "7",
        8 => "8",
        _ => "9",
    };
    assert(text@ =~= seq![digit_char(d as nat)]);
    text
}

/// Writes a number in decimal.
pub fn decimal_text(n: u64) -> (text: String)
    ensures
        text@ == decimal(n as nat),
    decreases n,
{
    if n < 10 {
        String::from_str(digit_text(n))
    } else {
        let mut text = decimal_text(n / 10);
        text.append(digit_text(n % 10));
        assert(text@ =~= decimal(n as nat));
        text
    }
}

/// Writes a 32-bit number in decimal, a negative one with a minus sign.
pub fn signed_decimal_text(i: i32) -> (text: String)
    ensures
        text@ == signed_decimal(i as int),
{
    if i < 0 {
        let size: i64 = -(i as i64);
        proof {
            reveal_strlit("-");
        }
        let mut text = String::from_str("-");
        text.append(decimal_text(size as u64).as_str());
        assert(text@ =~= signed_decimal(i as int));
        text
    } else {
        decimal_text(i as u64)
    }
}

/// The characters of a text, one by one.
fn chars_of(text: &str) -> (chars: Vec<char>)
    ensures
        chars@ == text@,
{
    let mut chars: Vec<char> = Vec::new();
    for c in it: text.chars()
        invariant
            it.seq() == text@,
            chars@ == text@.take(it.index() as int),
    {
        assert(text@.take(it.index() as int).push(c) =~= text@.take(it.index() + 1));
        chars.push(c);
    }
    assert(text@.take(text@.len() as int) =~= text@);
    chars
}

/// More digits never make a smaller number.
proof fn lemma_digits_value_grows(s: Seq<char>, i: int)
    requires
        0 <= i <= s.len(),
    ensures
        digits_value(s.take(i)) <= digits_value(s),
    decreases s.len() - i,
{
    if i == s.len() {
        assert(s.take(i) =~= s);
    } else {
        lemma_digits_value_grows(s, i + 1);
        assert(s.take(i + 1).drop_last() =~= s.take(i));
    }
}

/// Reads the digits from `start` on as a number of at most `limit`.
fn parse_magnitude(chars: &Vec<char>, start: usize, limit: u64) -> (number: Option<u64>)
    requires
        start <= chars@.len(),
    ensures
        number == (match magnitude(chars@.skip(start as int)) {
            Some(v) => if v <= limit {
                Some(v as u64)
            } else {
                None
            },
            None => None,
        }),
{
    let ghost digits = chars@.skip(start as int);
    if start == chars.len() {
        return None;
    }
    let mut number: u64 = 0;
    let mut i: usize = start;
    while i < chars.len()
        invariant
            start <= i <= chars@.len(),
            digits == chars@.skip(start as int),
            all_digits(digits.take(i - start)),
            number == digits_value(digits.take(i - start)),
            number <= limit,
        decreases chars@.len() - i,
    {
        let c = chars[i];
        assert(digits[i - start] == c);
        assert(digits.take(i - start + 1).drop_last() =~= digits.take(i - start));
        if c < '0' || c > '9' {
            assert(!is_digit(digits[i - start]));
            return None;
        }
        let d: u64 = (c as u32 - 48) as u64;
        if number > limit / 10 || d > limit - number * 10 {
            proof {
                assert(10 * number + d > limit);
                lemma_digits_value_grows(digits, i - start + 1);
            }
            return None;
        }
        number = number * 10 + d;
        i += 1;
    }
    assert(digits.take(digits.len() as int) =~= digits);
    Some(number)
}

/// Reads a 32-bit number: an optional sign, then at least one digit, then the end.
pub fn parse_i32(text: &str) -> (number: Option<i32>)
    ensures
        number == parsed_i32(text@),
{
    let chars = chars_of(text);
    assert(chars@.skip(0) =~= chars@);
    if chars.len() > 0 && chars[0] == '-' {
        match parse_magnitude(&chars, 1, 2147483648) {
            Some(size) => Some((-(size as i64)) as i32),
            None => None,
        }
    } else {
        let start: usize = if chars.len() > 0 && chars[0] == '+' { 1 } else { 0 };
        match parse_magnitude(&chars, start, 2147483647) {
            Some(size) => Some(size as i32),
            None => None,
        }
    }
}

/// Reads a machine-sized count: an optional plus sign, then at least one digit, then
/// the end.
pub fn parse_usize(text: &str) -> (number: Option<usize>)
    ensures
        number == parsed_usize(text@),
{
    let chars = chars_of(text);
    assert(chars@.skip(0) =~= chars@);
    let start: usize = if chars.len() > 0 && chars[0] == '+' { 1 } else { 0 };
    match parse_magnitude(&chars, start, usize::MAX as u64) {
        Some(size) => Some(size as usize),
        None => None,
    }
}

/// A number written in decimal is one or more digits, and they stand for that number.
pub proof fn decimal_is_read_back(n: nat)
    ensures
        decimal(n).len() > 0,
        all_digits(decimal(n)),
        digits_value(decimal(n)) == n,
    decreases n,
{
    if n < 10 {
        assert(decimal(n).drop_last() =~= Seq::<char>::empty());
        assert(digits_value(Seq::<char>::empty()) == 0);
    } else {
        decimal_is_read_back(n / 10);
        assert(decimal(n).drop_last() =~= decimal(n / 10));
    }
}

/// Every 32-bit number is read back from the text that it is written as.
pub proof fn i32_text_is_read_back(i: i32)
    ensures
        parsed_i32(signed_decimal(i as int)) == Some(i),
{
    let text = signed_decimal(i as int);
    if i < 0 {
        decimal_is_read_back((-i) as nat);
        assert(text.skip(1) =~= decimal((-i) as nat));
    } else {
        decimal_is_read_back(i as nat);
        assert(is_digit(text[0]));
    }
}

/// Every count is read back from the text that it is written as.
pub proof fn usize_text_is_read_back(n: usize)
    ensures
        parsed_usize(decimal(n as nat)) == Some(n),
{
    decimal_is_read_back(n as nat);
    assert(is_digit(decimal(n as nat)[0]));
}

/// The text of a number holds neither a line feed nor a carriage return, so that a
/// line that holds a number ends where the number does.
pub proof fn number_text_is_one_line(i: int)
    ensures
        !signed_decimal(i).contains('\n'),
        !signed_decimal(i).contains('\r'),
{
    let text = signed_decimal(i);
    let size: nat = if i < 0 { (-i) as nat } else { i as nat };
    decimal_is_read_back(size);
    assert forall|k: int| 0 <= k < text.len() implies text[k] != '\n' && text[k] != '\r' by {
        if i < 0 && k > 0 {
            assert(text[k] == decimal(size)[k - 1]);
        } else if i >= 0 {
            assert(is_digit(decimal(size)[k]));
        }
    }
}

/// What a row of digits stands for is their positional value in base ten.
proof fn digits_stand_for_their_positional_value(s: Seq<char>, value: spec_fn(Seq<char>) -> int)
    requires
        all_digits(s),
        value(Seq::<char>::empty()) == 0,
        forall|s: Seq<char>, c: char| #[trigger]
            value(s.push(c)) == 10 * value(s) + (c as int - '0' as int),
    ensures
        digits_value(s) == value(s),
    decreases s.len(),
{
    if s.len() == 0 {
        assert(s =~= Seq::<char>::empty());
    } else {
        digits_stand_for_their_positional_value(s.drop_last(), value);
        assert(s =~= s.drop_last().push(s.last()));
        assert(value(s.drop_last().push(s.last())) == 10 * value(s.drop_last()) + (s.last() as int
            - '0' as int));
        assert(is_digit(s[s.len() - 1]));
    }
}

/// A number in decimal begins with a zero only where it is nothing but a zero.
proof fn decimal_has_no_leading_zero(n: nat)
    ensures
        n > 0 ==> decimal(n)[0] != '0',
        n < 10 ==> decimal(n).len() == 1,
    decreases n,
{
    if n >= 10 {
        decimal_has_no_leading_zero(n / 10);
        decimal_is_read_back(n / 10);
        assert(decimal(n)[0] == decimal(n / 10)[0]);
    }
}

/// A number is written as digits whose positional value in base ten is that number, the
/// first of them no zero unless it is the only one. `value` stands for the positional value:
/// nothing is worth zero, and a further digit makes ten times as much and the digit.
pub proof fn text_is_worth_the_number(n: u64, text: String, value: spec_fn(Seq<char>) -> int)
    requires
        value(Seq::<char>::empty()) == 0,
        forall|s: Seq<char>, c: char| #[trigger]
            value(s.push(c)) == 10 * value(s) + (c as int - '0' as int),
        call_ensures(decimal_text, (n,), text),
    ensures
        value(text@) == n,
        text@.len() > 0,
        forall|k: int|
            0 <= k < text@.len() ==> '0' as int <= (#[trigger] text@[k]) as int <= '9' as int,
        text@.len() > 1 ==> text@[0] != '0',
{
    decimal_is_read_back(n as nat);
    decimal_has_no_leading_zero(n as nat);
    digits_stand_for_their_positional_value(text@, value);
    assert forall|k: int| 0 <= k < text@.len() implies '0' as int <= (
    #[trigger] text@[k]) as int <= '9' as int by {
        assert(is_digit(text@[k]));
    }
}

/// The text of a number begins with a minus sign exactly where the number is negative, and
/// the rest of it, or all of it where there is no sign, is digits whose positional value is
/// the size of the number.
pub proof fn signed_text_is_worth_the_number(
    i: i32,
    text: String,
    value: spec_fn(Seq<char>) -> int,
)
    requires
        value(Seq::<char>::empty()) == 0,
        forall|s: Seq<char>, c: char| #[trigger]
            value(s.push(c)) == 10 * value(s) + (c as int - '0' as int),
        call_ensures(signed_decimal_text, (i,), text),
    ensures
        text@.len() > 0,
        text@[0] == '-' <==> i < 0,
        i >= 0 ==> value(text@) == i,
        i < 0 ==> text@.len() > 1 && value(text@.skip(1)) == -(i as int),
        forall|k: int|
            (if i < 0 { 1int } else { 0int }) <= k < text@.len() ==> '0' as int <= (
            #[trigger] text@[k]) as int <= '9' as int,
{
    signed_decimal_is_worth_the_number(i as int, value);
}

/// What holds of the text of a number, over sequences of characters.
pub proof fn signed_decimal_is_worth_the_number(i: int, value: spec_fn(Seq<char>) -> int)
    requires
        value(Seq::<char>::empty()) == 0,
        forall|s: Seq<char>, c: char| #[trigger]
            value(s.push(c)) == 10 * value(s) + (c as int - '0' as int),
    ensures
        signed_decimal(i).len() > 0,
        signed_decimal(i)[0] == '-' <==> i < 0,
        i >= 0 ==> value(signed_decimal(i)) == i,
        i < 0 ==> signed_decimal(i).len() > 1 && value(signed_decimal(i).skip(1)) == -i,
        forall|k: int|
            (if i < 0 { 1int } else { 0int }) <= k < signed_decimal(i).len() ==> '0' as int <= (
            #[trigger] signed_decimal(i)[k]) as int <= '9' as int,
{
    let text = signed_decimal(i);
    let size: nat = if i < 0 { (-i) as nat } else { i as nat };
    decimal_is_read_back(size);
    digits_stand_for_their_positional_value(decimal(size), value);
    if i < 0 {
        assert(text.skip(1) =~= decimal(size));
    } else {
        assert(is_digit(decimal(size)[0]));
    }
    assert forall|k: int| (if i < 0 { 1int } else { 0int }) <= k < text.len() implies '0' as int <= (
    #[trigger] text[k]) as int <= '9' as int by {
        let at: int = if i < 0 { k - 1 } else { k };
        assert(is_digit(decimal(size)[at]));
        assert(text[k] == decimal(size)[at]);
    }
}

/// A text is read as a 32-bit number exactly where one or more digits stand in it, with
/// nothing else but one sign before them, and their positional value, taken negative behind
/// a minus sign, fits; and it is read as that value.
pub proof fn text_is_read_as_its_worth(
    text: &str,
    number: Option<i32>,
    digits: Seq<char>,
    worth: int,
    value: spec_fn(Seq<char>) -> int,
)
    requires
        value(Seq::<char>::empty()) == 0,
        forall|s: Seq<char>, c: char| #[trigger]
            value(s.push(c)) == 10 * value(s) + (c as int - '0' as int),
        digits == if text@.len() > 0 && (text@[0] == '-' || text@[0] == '+') {
            text@.skip(1)
        } else {
            text@
        },
        worth == if text@.len() > 0 && text@[0] == '-' {
            -value(digits)
        } else {
            value(digits)
        },
        call_ensures(parse_i32, (text,), number),
    ensures
        number is Some <==> {
            &&& digits.len() > 0
            &&& forall|k: int|
                0 <= k < digits.len() ==> '0' as int <= (#[trigger] digits[k]) as int <= '9' as int
            &&& -2147483648 <= worth <= 2147483647
        },
        number matches Some(number) ==> number == worth,
{
    parsed_i32_is_the_worth(text@, digits, worth, value);
}

/// How a text is read as a 32-bit number, over sequences of characters.
pub proof fn parsed_i32_is_the_worth(
    text: Seq<char>,
    digits: Seq<char>,
    worth: int,
    value: spec_fn(Seq<char>) -> int,
)
    requires
        value(Seq::<char>::empty()) == 0,
        forall|s: Seq<char>, c: char| #[trigger]
            value(s.push(c)) == 10 * value(s) + (c as int - '0' as int),
        digits == if text.len() > 0 && (text[0] == '-' || text[0] == '+') {
            text.skip(1)
        } else {
            text
        },
        worth == if text.len() > 0 && text[0] == '-' {
            -value(digits)
        } else {
            value(digits)
        },
    ensures
        parsed_i32(text) is Some <==> {
            &&& digits.len() > 0
            &&& forall|k: int|
                0 <= k < digits.len() ==> '0' as int <= (#[trigger] digits[k]) as int <= '9' as int
            &&& -2147483648 <= worth <= 2147483647
        },
        parsed_i32(text) matches Some(number) ==> number == worth,
{
    digits_are_told_by_their_range(digits);
    if all_digits(digits) {
        digits_stand_for_their_positional_value(digits, value);
    }
}

/// Whether a text holds digits alone is told by the range of its characters.
proof fn digits_are_told_by_their_range(s: Seq<char>)
    ensures
        all_digits(s) <==> forall|k: int|
            0 <= k < s.len() ==> '0' as int <= (#[trigger] s[k]) as int <= '9' as int,
{
    if all_digits(s) {
        assert forall|k: int| 0 <= k < s.len() implies '0' as int <= (
        #[trigger] s[k]) as int <= '9' as int by {
            assert(is_digit(s[k]));
        }
    }
}

/// A text is read as a count exactly where one or more digits stand in it, with nothing else
/// but one plus sign before them, and their positional value fits; and it is read as that
/// value.
pub proof fn count_is_read_as_its_worth(
    text: &str,
    number: Option<usize>,
    digits: Seq<char>,
    value: spec_fn(Seq<char>) -> int,
)
    requires
        value(Seq::<char>::empty()) == 0,
        forall|s: Seq<char>, c: char| #[trigger]
            value(s.push(c)) == 10 * value(s) + (c as int - '0' as int),
        digits == if text@.len() > 0 && text@[0] == '+' {
            text@.skip(1)
        } else {
            text@
        },
        call_ensures(parse_usize, (text,), number),
    ensures
        number is Some <==> {
            &&& digits.len() > 0
            &&& forall|k: int|
                0 <= k < digits.len() ==> '0' as int <= (#[trigger] digits[k]) as int <= '9' as int
            &&& value(digits) <= usize::MAX
        },
        number matches Some(number) ==> number == value(digits),
{
    parsed_usize_is_the_worth(text@, digits, value);
}

/// How a text is read as a count, over sequences of characters.
pub proof fn parsed_usize_is_the_worth(
    text: Seq<char>,
    digits: Seq<char>,
    value: spec_fn(Seq<char>) -> int,
)
    requires
        value(Seq::<char>::empty()) == 0,
        forall|s: Seq<char>, c: char| #[trigger]
            value(s.push(c)) == 10 * value(s) + (c as int - '0' as int),
        digits == if text.len() > 0 && text[0] == '+' {
            text.skip(1)
        } else {
            text
        },
    ensures
        parsed_usize(text) is Some <==> {
            &&& digits.len() > 0
            &&& forall|k: int|
                0 <= k < digits.len() ==> '0' as int <= (#[trigger] digits[k]) as int <= '9' as int
            &&& value(digits) <= usize::MAX
        },
        parsed_usize(text) matches Some(number) ==> number == value(digits),
{
    digits_are_told_by_their_range(digits);
    if all_digits(digits) {
        digits_stand_for_their_positional_value(digits, value);
    }
}

} // verus!
