//! Money in whole cents: how an amount is written and how it is read.
//!
//! An amount is written with two decimals, `1234` cents as `12.34`. It is read
//! from a decimal numeral with an optional sign and an optional fraction; what
//! lies beyond the second decimal is rounded to the nearest cent, a half away
//! from zero. Text that is no such numeral, or whose amount an `i64` of cents
//! cannot hold, reads as zero.

use vstd::prelude::*;
use crate::text::{chars_of, trim, trimmed};

verus! {

/// The largest whole part, in units, whose cents an `i64` can still hold.
pub const MAX_WHOLE_UNITS: u64 = 92_233_720_368_547_758;

/// Whether `c` is one of `0` to `9`.
pub open spec fn is_digit(c: char) -> bool {
    0x30 <= c as u32 <= 0x39
}

/// The number that the digit `c` stands for.
pub open spec fn digit_value(c: char) -> int {
    c as u32 - 0x30
}

/// The digit that stands for `d`, for `d` from 0 to 9.
pub open spec fn digit_char(d: int) -> char {
    if d == 0 {
        '0'
    } else if d == 1 {
        '1'
    } else if d == 2 {
        '2'
    } else if d == 3 {
        '3'
    } else if d == 4 {
        '4'
    } else if d == 5 {
        '5'
    } else if d == 6 {
        '6'
    } else if d == 7 {
        '7'
    } else if d == 8 {
        '8'
    } else {
        '9'
    }
}

/// Whether `s` holds digits only.
pub open spec fn all_digits(s: Seq<char>) -> bool {
    forall|i: int| 0 <= i < s.len() ==> is_digit(#[trigger] s[i])
}

/// The number that the decimal digits `s` write; zero for no digits.
pub open spec fn digits_value(s: Seq<char>) -> int
    decreases s.len(),
{
    if s.len() == 0 {
        0
    } else {
        digits_value(s.drop_last()) * 10 + digit_value(s.last())
    }
}

/// The decimal digits that write `n`, without leading zeros.
pub open spec fn decimal_text(n: nat) -> Seq<char>
    decreases n,
{
    if n < 10 {
        seq![digit_char(n as int)]
    } else {
        decimal_text(n / 10).push(digit_char((n % 10) as int))
    }
}

/// An amount of `cents` as it is written: the units, a point, two decimals.
pub open spec fn amount_text(cents: nat) -> Seq<char> {
    decimal_text(cents / 100) + seq!['.'] + seq![digit_char((cents / 10 % 10) as int)]
        + seq![digit_char((cents % 10) as int)]
}

/// Whether `s` starts with a sign.
pub open spec fn has_sign(s: Seq<char>) -> bool {
    s.len() > 0 && (s[0] == '+' || s[0] == '-')
}

/// `s` without its sign, if it has one.
pub open spec fn unsigned_part(s: Seq<char>) -> Seq<char> {
    if has_sign(s) {
        s.drop_first()
    } else {
        s
    }
}

/// Where the first decimal point of `s` stands; the length of `s` if it has none.
pub open spec fn point_index(s: Seq<char>) -> int
    decreases s.len(),
{
    if s.len() == 0 || s[0] == '.' {
        0
    } else {
        1 + point_index(s.drop_first())
    }
}

/// What stands before the first decimal point of `s`.
pub open spec fn whole_part(s: Seq<char>) -> Seq<char> {
    s.subrange(0, point_index(s))
}

/// What stands after the first decimal point of `s`; nothing if it has none.
pub open spec fn fraction_part(s: Seq<char>) -> Seq<char> {
    if point_index(s) < s.len() {
        s.subrange(point_index(s) + 1, s.len() as int)
    } else {
        Seq::empty()
    }
}

/// Whether `s` is a decimal numeral: an optional sign, then digits with at
/// most one decimal point among them, before them or after them, and at least
/// one digit.
pub open spec fn is_decimal(s: Seq<char>) -> bool {
    let u = unsigned_part(s);
    &&& all_digits(whole_part(u))
    &&& all_digits(fraction_part(u))
    &&& whole_part(u).len() + fraction_part(u).len() > 0
}

/// The cents that the fraction digits `f` come to: the first two digits, and
/// one cent more where the third digit is five or above.
pub open spec fn fraction_cents(f: Seq<char>) -> int {
    (if f.len() > 0 {
        digit_value(f[0]) * 10
    } else {
        0
    }) + (if f.len() > 1 {
        digit_value(f[1])
    } else {
        0
    }) + (if f.len() > 2 && digit_value(f[2]) >= 5 {
        1int
    } else {
        0int
    })
}

/// The cents that the decimal numeral `s` comes to.
pub open spec fn decimal_cents(s: Seq<char>) -> int {
    let u = unsigned_part(s);
    let magnitude = digits_value(whole_part(u)) * 100 + fraction_cents(fraction_part(u));
    if s.len() > 0 && s[0] == '-' {
        -magnitude
    } else {
        magnitude
    }
}

/// The amount in cents that `s` is read as: what it comes to as a decimal
/// numeral, and zero where it is none or comes to more than an `i64` holds.
pub open spec fn decimal_amount(s: Seq<char>) -> int {
    if is_decimal(s) && -i64::MAX <= decimal_cents(s) <= i64::MAX {
        decimal_cents(s)
    } else {
        0
    }
}

/// The amount in cents that `text` is read as: that of the numeral between
/// its leading and trailing white space.
pub open spec fn amount_of(text: Seq<char>) -> int {
    decimal_amount(trimmed(text))
}

/// `point_index` is the first position that holds a decimal point.
pub proof fn lemma_point_index(s: Seq<char>)
    ensures
        0 <= point_index(s) <= s.len(),
        point_index(s) < s.len() ==> s[point_index(s)] == '.',
        forall|j: int| 0 <= j < point_index(s) ==> s[j] != '.',
    decreases s.len(),
{
    if s.len() == 0 || s[0] == '.' {
    } else {
        let rest = s.drop_first();
        lemma_point_index(rest);
        assert forall|j: int| 0 <= j < point_index(s) implies s[j] != '.' by {
            if j > 0 {
                assert(s[j] == rest[j - 1]);
            }
        }
    }
}

/// Where the digits of `s` end at `k`, before a point or the end, that is
/// where `s` is split; where they end before anything else, `s` has a
/// character that is neither digit nor point in its whole part.
pub proof fn lemma_digits_then_point(s: Seq<char>, k: int)
    requires
        0 <= k <= s.len(),
        forall|j: int| 0 <= j < k ==> is_digit(s[j]),
        k < s.len() ==> !is_digit(s[k]),
    ensures
        k == s.len() || s[k] == '.' ==> point_index(s) == k,
        k < s.len() && s[k] != '.' ==> !all_digits(whole_part(s)),
{
    lemma_point_index(s);
    let p = point_index(s);
    if p < k {
        assert(is_digit(s[p]));
    }
    if k < s.len() && s[k] != '.' {
        assert(p > k);
        assert(whole_part(s)[k] == s[k]);
    }
}

/// The digits that write `n` are digits, at least one, and are worth `n`.
pub proof fn lemma_decimal_text_value(n: nat)
    ensures
        decimal_text(n).len() > 0,
        all_digits(decimal_text(n)),
        digits_value(decimal_text(n)) == n,
    decreases n,
{
    let text = decimal_text(n);
    if n < 10 {
        assert(text.drop_last() =~= Seq::<char>::empty());
        assert(digits_value(text.drop_last()) == 0);
    } else {
        lemma_decimal_text_value(n / 10);
        assert(text.drop_last() =~= decimal_text(n / 10));
        assert(text.last() == digit_char((n % 10) as int));
    }
}

/// Tells whether `c` is one of `0` to `9`.
pub fn digit(c: char) -> (b: bool)
    ensures
        b == is_digit(c),
{
    let n: u32 = c as u32;
    0x30 <= n && n <= 0x39
}

/// Returns the number that the digit `c` stands for.
pub fn value_of_digit(c: char) -> (d: u64)
    requires
        is_digit(c),
    ensures
        d == digit_value(c),
        d <= 9,
{
    let n: u32 = c as u32;
    (n - 0x30) as u64
}

/// Returns the digit that stands for `d`.
pub fn digit_text(d: u64) -> (text: &'static str)
    requires
        d <= 9,
    ensures
        text@ == seq![digit_char(d as int)],
{
    proof {
        reveal_strlit("0");
        reveal_strlit("1");
        reveal_strlit("2");
        reveal_strlit("3");
        reveal_strlit("4");
        reveal_strlit("5");
        reveal_strlit("6");
        reveal_strlit("7");
        reveal_strlit("8");
        reveal_strlit("9");
    }
    let text = if d == 0 {
        "0"
    } else if d == 1 {
        "1"
    } else if d == 2 {
        "2"
    } else if d == 3 {
        "3"
    } else if d == 4 {
        "4"
    } else if d == 5 {
        "5"
    } else if d == 6 {
        "6"
    } else if d == 7 {
        "7"
    } else if d == 8 {
        "8"
    } else {
        "9"
    };
    assert(text@ =~= seq![digit_char(d as int)]);
    text
}

/// Appends to `out` the decimal digits that write `n`.
pub fn push_decimal(out: &mut String, n: u64)
    ensures
        final(out)@ == old(out)@ + decimal_text(n as nat),
    decreases n,
{
    if n >= 10 {
        push_decimal(out, n / 10);
    }
    out.append(digit_text(n % 10));
    proof {
        if n >= 10 {
            assert(old(out)@ + decimal_text((n / 10) as nat) + seq![digit_char((n % 10) as int)]
                =~= old(out)@ + decimal_text(n as nat));
        }
    }
}

/// Writes an amount of `cents` with two decimals, `1234` as `12.34`.
pub fn format_amount(cents: u64) -> (text: String)
    ensures
        text@ == amount_text(cents as nat),
{
    let mut text = String::new();
    push_decimal(&mut text, cents / 100);
    proof {
        reveal_strlit(".");
        assert("."@ =~= seq!['.']);
        assert(Seq::<char>::empty() + decimal_text((cents / 100) as nat) =~= decimal_text(
            (cents / 100) as nat,
        ));
    }
    text.append(".");
    text.append(digit_text(cents / 10 % 10));
    text.append(digit_text(cents % 10));
    text
}

/// Reads the digits of `s` from `start` on, as far as they go. Returns where
/// they end, and their value, or that it is above `MAX_WHOLE_UNITS`.
fn scan_whole(s: &Vec<char>, start: usize) -> (r: (usize, u64, bool))
    requires
        start <= s.len(),
    ensures
        start <= r.0 <= s.len(),
        forall|j: int| start <= j < r.0 ==> is_digit(s@[j]),
        r.0 < s.len() ==> !is_digit(s@[r.0 as int]),
        !r.2 ==> r.1 == digits_value(s@.subrange(start as int, r.0 as int)) && r.1
            <= MAX_WHOLE_UNITS,
        r.2 ==> digits_value(s@.subrange(start as int, r.0 as int)) > MAX_WHOLE_UNITS,
{
    let n = s.len();
    let mut i: usize = start;
    let mut whole: u64 = 0;
    let mut huge = false;
    assert(s@.subrange(start as int, start as int) =~= Seq::<char>::empty());
    while i < n && digit(s[i])
        invariant
            n == s.len(),
            start <= i <= n,
            forall|j: int| start <= j < i ==> is_digit(s@[j]),
            !huge ==> whole == digits_value(s@.subrange(start as int, i as int)) && whole
                <= MAX_WHOLE_UNITS,
            huge ==> digits_value(s@.subrange(start as int, i as int)) > MAX_WHOLE_UNITS,
        decreases n - i,
    {
        let d = value_of_digit(s[i]);
        proof {
            let longer = s@.subrange(start as int, i + 1);
            assert(longer.drop_last() =~= s@.subrange(start as int, i as int));
            assert(longer.last() == s@[i as int]);
        }
        if !huge {
            let next = whole * 10 + d;
            if next > MAX_WHOLE_UNITS {
                huge = true;
            } else {
                whole = next;
            }
        }
        i += 1;
    }
    (i, whole, huge)
}

/// Reads what follows the decimal point of `s`, from `first` on: the cents it
/// comes to, or nothing where a character is no digit.
fn scan_fraction(s: &Vec<char>, first: usize) -> (r: Option<u64>)
    requires
        first <= s.len(),
    ensures
        r is Some <==> all_digits(s@.subrange(first as int, s.len() as int)),
        r matches Some(cents) ==> cents == fraction_cents(
            s@.subrange(first as int, s.len() as int),
        ) && cents <= 100,
{
    let n = s.len();
    let ghost f = s@.subrange(first as int, n as int);
    let mut i: usize = first;
    while i < n
        invariant
            n == s.len(),
            first <= i <= n,
            f == s@.subrange(first as int, n as int),
            forall|j: int| first <= j < i ==> is_digit(s@[j]),
        decreases n - i,
    {
        if !digit(s[i]) {
            assert(f[i - first] == s@[i as int]);
            return None;
        }
        i += 1;
    }
    assert forall|j: int| 0 <= j < f.len() implies is_digit(#[trigger] f[j]) by {
        assert(f[j] == s@[first + j]);
    }
    let len = n - first;
    let mut cents: u64 = 0;
    if len > 0 {
        assert(f[0] == s@[first as int]);
        cents = value_of_digit(s[first]) * 10;
    }
    if len > 1 {
        assert(f[1] == s@[first + 1]);
        cents = cents + value_of_digit(s[first + 1]);
    }
    if len > 2 {
        assert(f[2] == s@[first + 2]);
        if value_of_digit(s[first + 2]) >= 5 {
            cents = cents + 1;
        }
    }
    Some(cents)
}

/// Reads the decimal numeral `s` as an amount in cents.
pub fn parse_decimal(s: &Vec<char>) -> (cents: i64)
    ensures
        cents == decimal_amount(s@),
{
    let n = s.len();
    let signed = n > 0 && (s[0] == '+' || s[0] == '-');
    let negative = n > 0 && s[0] == '-';
    let start: usize = if signed {
        1
    } else {
        0
    };
    let ghost u = unsigned_part(s@);
    let (end, whole, huge) = scan_whole(s, start);
    proof {
        assert(u =~= s@.skip(start as int));
        assert forall|j: int| 0 <= j < end - start implies is_digit(u[j]) by {
            assert(u[j] == s@[start + j]);
        }
        if end < n {
            assert(u[end - start] == s@[end as int]);
        }
        lemma_digits_then_point(u, end - start);
    }
    if end < n && s[end] != '.' {
        return 0;
    }
    proof {
        assert(whole_part(u) =~= s@.subrange(start as int, end as int));
    }
    let mut fraction: u64 = 0;
    let mut fraction_len: usize = 0;
    if end < n {
        proof {
            assert(fraction_part(u) =~= s@.subrange(end + 1, n as int));
        }
        match scan_fraction(s, end + 1) {
            None => {
                return 0;
            },
            Some(c) => {
                fraction = c;
                fraction_len = n - end - 1;
            },
        }
    }
    if end - start == 0 && fraction_len == 0 {
        return 0;
    }
    assert(is_decimal(s@));
    assert(fraction == fraction_cents(fraction_part(u)));
    if huge {
        return 0;
    }
    let magnitude: u64 = whole * 100 + fraction;
    if magnitude > 9_223_372_036_854_775_807 {
        return 0;
    }
    if negative {
        0 - (magnitude as i64)
    } else {
        magnitude as i64
    }
}

/// Reads `text` as an amount in cents: zero where it is not a decimal
/// numeral, or one whose cents do not fit.
pub fn parse_amount(text: &str) -> (cents: i64)
    ensures
        cents == amount_of(text@),
{
    let numeral = chars_of(trim(text));
    parse_decimal(&numeral)
}

} // verus!
