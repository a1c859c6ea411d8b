//! Text: comparison, decimal numbers, concatenation.

use vstd::prelude::*;
use vstd::string::StringExecFns;

verus! {

/// Whether `c` is one of the ten ASCII digits.
pub open spec fn is_digit(c: char) -> bool {
    '0' <= c <= '9'
}

/// The number that a run of digits stands for, most significant digit first.
pub open spec fn digits_value(s: Seq<char>) -> nat
    decreases s.len(),
{
    if s.len() == 0 {
        0
    } else {
        digits_value(s.drop_last()) * 10 + (s.last() as nat - '0' as nat) as nat
    }
}

/// The number written in `s`: an optional `+`, and then one digit or more and nothing else.
pub open spec fn unsigned_value(s: Seq<char>) -> Option<nat> {
    let digits = if s.len() > 0 && s[0] == '+' {
        s.skip(1)
    } else {
        s
    };
    if digits.len() > 0 && digits.all(|c: char| is_digit(c)) {
        Some(digits_value(digits))
    } else {
        None
    }
}

/// The `u64` written in `s`, if `s` writes a number and the number fits.
pub open spec fn parsed_u64(s: Seq<char>) -> Option<u64> {
    match unsigned_value(s) {
        Some(v) => if v <= u64::MAX {
            Some(v as u64)
        } else {
            None
        },
        None => None,
    }
}

/// The number written in `s`: an optional `-` or `+`, and then one digit or more and nothing else.
pub open spec fn signed_value(s: Seq<char>) -> Option<int> {
    if s.len() > 0 && s[0] == '-' {
        let digits = s.skip(1);
        if digits.len() > 0 && digits.all(|c: char| is_digit(c)) {
            Some(-digits_value(digits))
        } else {
            None
        }
    } else {
        match unsigned_value(s) {
            Some(v) => Some(v as int),
            None => None,
        }
    }
}

/// The `i64` written in `s`, if `s` writes a number and the number fits.
pub open spec fn parsed_i64(s: Seq<char>) -> Option<i64> {
    match signed_value(s) {
        Some(v) => if i64::MIN <= v <= i64::MAX {
            Some(v as i64)
        } else {
            None
        },
        None => None,
    }
}

/// The digit for a number below ten.
pub open spec fn digit_char(d: nat) -> char {
    ('0' as nat + d) as char
}

/// `n` in decimal, without leading zeros.
pub open spec fn decimal_text(n: nat) -> Seq<char>
    decreases n,
{
    if n < 10 {
        seq![digit_char(n)]
    } else {
        decimal_text(n / 10).push(digit_char(n % 10))
    }
}

/// Whether two texts are the same.
pub fn same(a: &str, b: &str) -> (r: bool)
    ensures
        r == (a@ == b@),
{
    a.to_owned() == b.to_owned()
}

/// Calls `str::parse::<u64>`, which takes an optional `+` and then only digits, and refuses
/// everything else and every number that does not fit.
#[verifier::external_body]
pub(crate) fn parse_u64(s: &str) -> (r: Option<u64>)
    ensures
        r == parsed_u64(s@),
{
    s.parse::<u64>().ok()
}

fn digit(d: u64) -> (s: &'static str)
    requires
        d < 10,
    ensures
        s@ == seq![digit_char(d as nat)],
{
    proof {
        reveal_strlit("0");
        reveal_strlit("1");
        reveal_strlit("2");
        reveal_strlit("3");
        reveal_strlit("4");
        reveal_strlit("5");
        reveal_strlit("6");
        reveal_strlit("7");
        reveal_strlit("8");
        reveal_strlit("9");
    }
    let s: &'static str = match d {
        0 => "0",
        1 => "1",
        2 => "2",
        3 => "3",
        4 => "4",
        5 => "5",
        6 => "6",
        7 => "7",
        8 => "8",
        _ => "9",
    };
    assert(s@ =~= seq![digit_char(d as nat)]);
    s
}

/// `n` in decimal.
pub fn decimal(n: u64) -> (s: String)
    ensures
        s@ == decimal_text(n as nat),
    decreases n,
{
    let mut s: String = if n < 10 {
        String::new()
    } else {
        decimal(n / 10)
    };
    s.append(digit(n % 10));
    assert(s@ =~= decimal_text(n as nat));
    s
}

/// What each text of a list holds.
pub open spec fn text_views(texts: Seq<String>) -> Seq<Seq<char>> {
    texts.map_values(|s: String| s@)
}

/// Whether a text is in a list.
pub fn contains_text(texts: &Vec<String>, text: &str) -> (r: bool)
    ensures
        r == text_views(texts@).contains(text@),
{
    let mut i: usize = 0;
    while i < texts.len()
        invariant
            i <= texts@.len(),
            forall|j: int| 0 <= j < i ==> (#[trigger] texts@[j])@ != text@,
        decreases texts@.len() - i,
    {
        if same(texts[i].as_str(), text) {
            assert(text_views(texts@)[i as int] == text@);
            return true;
        }
        i += 1;
    }
    proof {
        if text_views(texts@).contains(text@) {
            let j = text_views(texts@).index_of(text@);
            assert(texts@[j]@ == text@);
        }
    }
    false
}

/// A number is written in digits alone, without a leading zero, and reading it gives it back.
pub proof fn decimals_are_read_back(n: u64)
    ensures
        decimal_text(n as nat).len() > 0,
        forall|i: int|
            0 <= i < decimal_text(n as nat).len() ==> '0' <= #[trigger] decimal_text(n as nat)[i]
                <= '9',
        n > 0 ==> decimal_text(n as nat)[0] != '0',
        n == 0 ==> decimal_text(n as nat) == seq!['0'],
        parsed_u64(decimal_text(n as nat)) == Some(n),
{
    digits_tell_number(n as nat);
    let text = decimal_text(n as nat);
    assert(text[0] != '+');
    assert forall|i: int| 0 <= i < text.len() implies is_digit(#[trigger] text[i]) by {}
    assert(text.all(|c: char| is_digit(c)));
}

proof fn digits_tell_number(n: nat)
    ensures
        decimal_text(n).len() > 0,
        digits_value(decimal_text(n)) == n,
        forall|i: int| 0 <= i < decimal_text(n).len() ==> '0' <= #[trigger] decimal_text(n)[i] <= '9',
        n > 0 ==> decimal_text(n)[0] != '0',
    decreases n,
{
    reveal_with_fuel(digits_value, 2);
    if n < 10 {
        assert(decimal_text(n).drop_last() =~= Seq::<char>::empty());
    } else {
        digits_tell_number(n / 10);
        let front = decimal_text(n / 10);
        assert(decimal_text(n).drop_last() =~= front);
        assert(decimal_text(n)[0] == front[0]);
    }
}

/// A text writes a number exactly where it is digits and no more, with at most one sign in front;
/// each digit counts ten times the one behind it. A number that does not fit is none.
pub proof fn numbers_are_read_by_digits(digits: Seq<char>, digit: char)
    requires
        forall|i: int| 0 <= i < digits.len() ==> '0' <= #[trigger] digits[i] <= '9',
        '0' <= digit <= '9',
    ensures
        ({
            let text = digits.push(digit);
            let value = digits_value(digits) * 10 + (digit as nat - '0' as nat);
            &&& digits_value(text) == value
            &&& unsigned_value(text) == Some(value as nat)
            &&& unsigned_value(seq!['+'] + text) == Some(value as nat)
            &&& signed_value(text) == Some(value)
            &&& signed_value(seq!['+'] + text) == Some(value)
            &&& signed_value(seq!['-'] + text) == Some(-value)
            &&& unsigned_value(seq!['-'] + text) is None
            &&& value <= u64::MAX ==> parsed_u64(text) == Some(value as u64)
            &&& value > u64::MAX ==> parsed_u64(text) is None
            &&& value <= i64::MAX ==> parsed_i64(text) == Some(value as i64)
            &&& value > i64::MAX ==> parsed_i64(text) is None
            &&& -value >= i64::MIN ==> parsed_i64(seq!['-'] + text) == Some((-value) as i64)
            &&& -value < i64::MIN ==> parsed_i64(seq!['-'] + text) is None
        }),
        digits_value(Seq::empty()) == 0,
        unsigned_value(Seq::empty()) is None,
        signed_value(Seq::empty()) is None,
        signed_value(seq!['-']) is None,
        unsigned_value(seq!['+']) is None,
{
    let text = digits.push(digit);
    assert(text.drop_last() =~= digits);
    assert forall|i: int| 0 <= i < text.len() implies is_digit(#[trigger] text[i]) by {
        if i < digits.len() {
            assert(text[i] == digits[i]);
        }
    }
    assert(text.all(|c: char| is_digit(c)));
    assert((seq!['+'] + text).skip(1) =~= text);
    assert((seq!['-'] + text).skip(1) =~= text);
    let p = |c: char| is_digit(c);
    assert(is_digit(text[0]));
    assert(!p((seq!['-'] + text)[0]));
    assert(seq!['-'].skip(1).len() == 0);
    assert(seq!['+'].skip(1).len() == 0);
}

/// Texts with anything but digits behind the sign write no number.
pub proof fn other_texts_write_no_number(text: Seq<char>, at: int)
    requires
        0 <= at < text.len(),
        !('0' <= text[at] <= '9'),
        at > 0 || text[0] != '+' && text[0] != '-',
    ensures
        unsigned_value(text) is None,
        signed_value(text) is None,
        parsed_u64(text) is None,
        parsed_i64(text) is None,
{
    let p = |c: char| is_digit(c);
    if at > 0 {
        assert(!p(text.skip(1)[at - 1]));
    }
    assert(!p(text[at]));
}

/// Texts are looked at one by one.
pub proof fn texts_are_looked_at_whole(texts: Seq<String>, text: String)
    ensures
        text_views(texts.push(text)) == text_views(texts).push(text@),
        text_views(Seq::empty()) == Seq::<Seq<char>>::empty(),
{
    assert(text_views(texts.push(text)) =~= text_views(texts).push(text@));
    assert(text_views(Seq::empty()) =~= Seq::<Seq<char>>::empty());
}

} // verus!
