use crate::text::chars_of;
use vstd::prelude::*;
use vstd::string::*;

verus! {

/// The character that writes the decimal digit `d`.
pub open spec fn digit_char(d: int) -> char {
    if d == 0 {
        '0'
    } else if d == 1 {
        '1'
    } else if d == 2 {
        '2'
    } else if d == 3 {
        '3'
    } else if d == 4 {
        '4'
    } else if d == 5 {
        '5'
    } else if d == 6 {
        '6'
    } else if d == 7 {
        '7'
    } else if d == 8 {
        '8'
    } else {
        '9'
    }
}

/// The decimal digits of `n`, most significant first, without leading zeros.
pub open spec fn nat_digits(n: nat) -> Seq<char>
    decreases n,
{
    if n < 10 {
        seq![digit_char(n as int)]
    } else {
        nat_digits(n / 10).push(digit_char((n % 10) as int))
    }
}

/// The decimal text of `n`: a minus sign for a negative number, then its digits.
pub open spec fn decimal(n: int) -> Seq<char> {
    if n < 0 {
        seq!['-'] + nat_digits((-n) as nat)
    } else {
        nat_digits(n as nat)
    }
}

/// Whether `c` is one of the ten decimal digits.
pub open spec fn is_digit(c: char) -> bool {
    '0' <= c && c <= '9'
}

/// The number that the digit `c` stands for; zero for any other character.
pub open spec fn digit_value(c: char) -> nat {
    if is_digit(c) {
        (c as u32 - '0' as u32) as nat
    } else {
        0
    }
}

/// Whether `text` holds decimal digits only.
pub open spec fn all_digits(text: Seq<char>) -> bool {
    forall|i: int| 0 <= i < text.len() ==> is_digit(#[trigger] text[i])
}

/// The number that a run of digits writes, most significant digit first.
pub open spec fn digits_value(text: Seq<char>) -> nat
    decreases text.len(),
{
    if text.len() == 0 {
        0
    } else {
        digits_value(text.drop_last()) * 10 + digit_value(text.last())
    }
}

/// The whole number that `text` writes: an optional sign, then at least one digit, and
/// nothing else. A minus sign is read only where `signed` holds; a plus sign always.
pub open spec fn number_in(text: Seq<char>, signed: bool) -> Option<int> {
    let negative = signed && text.len() > 0 && text[0] == '-';
    let digits = if text.len() > 0 && (text[0] == '+' || negative) {
        text.skip(1)
    } else {
        text
    };
    if digits.len() > 0 && all_digits(digits) {
        Some(
            if negative {
                -(digits_value(digits) as int)
            } else {
                digits_value(digits) as int
            },
        )
    } else {
        None
    }
}

/// What `text` says as an `i32`, if it writes a whole number that fits.
pub open spec fn parsed_i32(text: Seq<char>) -> Option<i32> {
    match number_in(text, true) {
        Some(n) => if i32::MIN <= n <= i32::MAX {
            Some(n as i32)
        } else {
            None
        },
        None => None,
    }
}

/// What `text` says as a `u64`, if it writes a whole number that fits.
pub open spec fn parsed_u64(text: Seq<char>) -> Option<u64> {
    match number_in(text, false) {
        Some(n) => if n <= u64::MAX {
            Some(n as u64)
        } else {
            None
        },
        None => None,
    }
}

/// Whether `c` can stand in the decimal text of a number: a digit or the minus sign.
pub open spec fn is_number_char(c: char) -> bool {
    c == '-' || is_digit(c)
}

/// Whether `text` is made of digits and minus signs only.
pub open spec fn is_number_text(text: Seq<char>) -> bool {
    forall|i: int| 0 <= i < text.len() ==> is_number_char(#[trigger] text[i])
}

/// Whether `text` holds neither a digit nor a minus sign.
pub open spec fn has_no_number_char(text: Seq<char>) -> bool {
    forall|i: int| 0 <= i < text.len() ==> !is_number_char(#[trigger] text[i])
}

/// The text of the single digit `d`.
fn digit_text(d: u64) -> (r: &'static str)
    requires
        d < 10,
    ensures
        r@ == seq![digit_char(d as int)],
{
    proof {
        reveal_strlit("0");
        reveal_strlit("1");
        reveal_strlit("2");
        reveal_strlit("3");
        reveal_strlit("4");
        reveal_strlit("5");
        reveal_strlit("6");
        reveal_strlit("7");
        reveal_strlit("8");
        reveal_strlit("9");
    }
    let r = if d == 0 {
        "0"
    } else if d == 1 {
        "1"
    } else if d == 2 {
        "2"
    } else if d == 3 {
        "3"
    } else if d == 4 {
        "4"
    } else if d == 5 {
        "5"
    } else if d == 6 {
        "6"
    } else if d == 7 {
        "7"
    } else if d == 8 {
        "8"
    } else {
        "9"
    };
    assert(r@ =~= seq![digit_char(d as int)]);
    r
}

/// Appends the digits of `n` to `out`.
fn append_digits(n: u64, out: &mut String)
    ensures
        final(out)@ == old(out)@ + nat_digits(n as nat),
    decreases n,
{
    if n >= 10 {
        append_digits(n / 10, out);
    }
    out.append(digit_text(n % 10));
    assert(out@ =~= old(out)@ + nat_digits(n as nat));
}

/// Writes `n` in decimal.
pub fn decimal_string(n: i32) -> (r: String)
    ensures
        r@ == decimal(n as int),
{
    let mut out = String::new();
    if n < 0 {
        out.append("-");
        proof {
            reveal_strlit("-");
        }
        let magnitude: u64 = (-(n as i64)) as u64;
        append_digits(magnitude, &mut out);
    } else {
        append_digits(n as u64, &mut out);
    }
    assert(out@ =~= decimal(n as int));
    out
}

/// Reads `text` from `start` to its end as a run of digits that writes at most `limit`.
fn read_digits(text: &Vec<char>, start: usize, limit: u64) -> (r: Option<u64>)
    requires
        start <= text.len(),
    ensures
        r == if text@.skip(start as int).len() > 0 && all_digits(text@.skip(start as int))
            && digits_value(text@.skip(start as int)) <= limit {
            Some(digits_value(text@.skip(start as int)) as u64)
        } else {
            None::<u64>
        },
{
    let ghost digits = text@.skip(start as int);
    if start == text.len() {
        return None;
    }
    let mut value: u128 = 0;
    let mut at: usize = start;
    assert(digits.take(0) =~= Seq::<char>::empty());
    while at < text.len()
        invariant
            digits == text@.skip(start as int),
            start <= at <= text.len(),
            all_digits(digits.take(at - start)),
            value == digits_value(digits.take(at - start)),
            value <= limit,
        decreases text.len() - at,
    {
        let c = text[at];
        assert(digits[at - start] == c);
        if c < '0' || c > '9' {
            return None;
        }
        let digit: u128 = (c as u32 - '0' as u32) as u128;
        let next: u128 = value * 10 + digit;
        proof {
            assert(digits.take(at - start + 1).drop_last() =~= digits.take(at - start));
            assert(digits.take(at - start + 1).last() == c);
            assert(next == digits_value(digits.take(at - start + 1)));
        }
        if next > limit as u128 {
            proof {
                lemma_digits_value_grows(digits, at - start + 1);
            }
            return None;
        }
        value = next;
        at += 1;
    }
    assert(digits.take(at - start) =~= digits);
    Some(value as u64)
}

/// Reads `text` as an `i32`: an optional sign, then decimal digits.
pub fn parse_i32(text: &str) -> (r: Option<i32>)
    ensures
        r == parsed_i32(text@),
{
    let chars = chars_of(text);
    if chars.len() == 0 {
        return None;
    }
    let first = chars[0];
    if first == '-' {
        match read_digits(&chars, 1, 2147483648) {
            Some(magnitude) => Some((-(magnitude as i64)) as i32),
            None => None,
        }
    } else if first == '+' {
        match read_digits(&chars, 1, 2147483647) {
            Some(magnitude) => Some(magnitude as i32),
            None => None,
        }
    } else {
        assert(chars@.skip(0) =~= chars@);
        match read_digits(&chars, 0, 2147483647) {
            Some(magnitude) => Some(magnitude as i32),
            None => None,
        }
    }
}

/// Reads `text` as a `u64`: an optional plus sign, then decimal digits.
pub fn parse_u64(text: &str) -> (r: Option<u64>)
    ensures
        r == parsed_u64(text@),
{
    let chars = chars_of(text);
    if chars.len() == 0 {
        return None;
    }
    if chars[0] == '+' {
        read_digits(&chars, 1, u64::MAX)
    } else {
        assert(chars@.skip(0) =~= chars@);
        read_digits(&chars, 0, u64::MAX)
    }
}

/// A run of digits writes at least what any of its beginnings writes.
pub proof fn lemma_digits_value_grows(text: Seq<char>, k: int)
    requires
        0 <= k <= text.len(),
    ensures
        digits_value(text.take(k)) <= digits_value(text),
    decreases text.len() - k,
{
    if k == text.len() {
        assert(text.take(k) =~= text);
    } else {
        lemma_digits_value_grows(text, k + 1);
        assert(text.take(k + 1).drop_last() =~= text.take(k));
    }
}

/// The digits of a number are digits, and they write the number.
pub proof fn lemma_digits_write_the_number(n: nat)
    ensures
        nat_digits(n).len() > 0,
        all_digits(nat_digits(n)),
        digits_value(nat_digits(n)) == n,
    decreases n,
{
    if n < 10 {
        let text = nat_digits(n);
        assert(text.len() == 1);
        assert(is_digit(text[0]) && digit_value(text[0]) == n);
        assert(text.drop_last() =~= Seq::<char>::empty());
        assert(digits_value(text.drop_last()) == 0);
    } else {
        lemma_digits_write_the_number(n / 10);
        let text = nat_digits(n);
        let front = nat_digits(n / 10);
        let last = digit_char((n % 10) as int);
        assert(text == front.push(last));
        assert(text.drop_last() =~= front);
        assert(is_digit(last) && digit_value(last) == n % 10);
        assert forall|i: int| 0 <= i < text.len() implies is_digit(#[trigger] text[i]) by {
            if i < front.len() {
                assert(text[i] == front[i]);
            }
        }
    }
}

/// Reading undoes writing: the decimal text of an `i32` is read back as that number.
pub proof fn lemma_decimal_reads_back(n: i32)
    ensures
        parsed_i32(decimal(n as int)) == Some(n),
{
    let text = decimal(n as int);
    if n < 0 {
        let digits = nat_digits((-n) as nat);
        lemma_digits_write_the_number((-n) as nat);
        assert(text[0] == '-');
        assert(text.skip(1) =~= digits);
    } else {
        lemma_digits_write_the_number(n as nat);
        assert(is_digit(text[0]));
    }
}

/// The decimal text of a number is not empty, and is made of digits and minus signs only.
pub proof fn lemma_decimal_is_number_text(n: int)
    ensures
        decimal(n).len() > 0,
        is_number_text(decimal(n)),
{
    if n < 0 {
        lemma_digits_write_the_number((-n) as nat);
        let digits = nat_digits((-n) as nat);
        assert forall|i: int| 0 <= i < decimal(n).len() implies is_number_char(
            #[trigger] decimal(n)[i],
        ) by {
            if i > 0 {
                assert(decimal(n)[i] == digits[i - 1]);
            }
        }
    } else {
        lemma_digits_write_the_number(n as nat);
    }
}

} // verus!
