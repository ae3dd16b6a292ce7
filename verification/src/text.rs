//! Text helpers: lexicographic comparison of strings and decimal numerals.
use vstd::prelude::*;
use vstd::std_specs::iter::IteratorSpec;

verus! {

/// How two strings compare.
#[derive(Debug, Clone, Copy, PartialEq, Eq, Structural)]
pub enum Comparison {
    /// The left one comes first.
    Before,
    /// Both are the same string.
    Same,
    /// The right one comes first.
    After,
}

/// The dictionary order of two strings, code point by code point.
pub open spec fn compare_text(a: Seq<char>, b: Seq<char>) -> Comparison
    decreases a.len(),
{
    if a.len() == 0 {
        if b.len() == 0 { Comparison::Same } else { Comparison::Before }
    } else if b.len() == 0 {
        Comparison::After
    } else if (a[0] as int) < (b[0] as int) {
        Comparison::Before
    } else if (b[0] as int) < (a[0] as int) {
        Comparison::After
    } else {
        compare_text(a.drop_first(), b.drop_first())
    }
}

/// Compares two strings in dictionary order.
pub fn compare_str(a: &str, b: &str) -> (r: Comparison)
    ensures
        r == compare_text(a@, b@),
{
    let mut left = a.chars();
    let mut right = b.chars();
    loop
        invariant
            compare_text(a@, b@) == compare_text(left.remaining(), right.remaining()),
            left.obeys_prophetic_iter_laws(),
            right.obeys_prophetic_iter_laws(),
            left.decrease() is Some,
        decreases left.decrease()->0,
    {
        let x = left.next();
        let y = right.next();
        match (x, y) {
            (None, None) => { return Comparison::Same; },
            (None, Some(_)) => { return Comparison::Before; },
            (Some(_), None) => { return Comparison::After; },
            (Some(c), Some(d)) => {
                if c < d {
                    return Comparison::Before;
                }
                if d < c {
                    return Comparison::After;
                }
            },
        }
    }
}

/// Every string compares as the same to itself, and to nothing else.
pub proof fn lemma_compare_same(a: Seq<char>, b: Seq<char>)
    ensures
        compare_text(a, b) == Comparison::Same <==> a == b,
    decreases a.len(),
{
    if a.len() > 0 && b.len() > 0 {
        lemma_compare_same(a.drop_first(), b.drop_first());
        if a[0] == b[0] {
            assert(a =~= seq![a[0]] + a.drop_first());
            assert(b =~= seq![b[0]] + b.drop_first());
        }
    } else if a.len() == 0 && b.len() == 0 {
        assert(a =~= b);
    }
}

/// Swapping the two sides turns the comparison around.
pub proof fn lemma_compare_swap(a: Seq<char>, b: Seq<char>)
    ensures
        compare_text(a, b) == Comparison::Before <==> compare_text(b, a) == Comparison::After,
    decreases a.len(),
{
    if a.len() > 0 && b.len() > 0 {
        lemma_compare_swap(a.drop_first(), b.drop_first());
    }
}

/// "Comes first" is transitive.
pub proof fn lemma_compare_transitive(a: Seq<char>, b: Seq<char>, c: Seq<char>)
    requires
        compare_text(a, b) == Comparison::Before,
        compare_text(b, c) == Comparison::Before,
    ensures
        compare_text(a, c) == Comparison::Before,
    decreases a.len(),
{
    if a.len() > 0 && b.len() > 0 && c.len() > 0 {
        if a[0] == b[0] && b[0] == c[0] {
            lemma_compare_transitive(a.drop_first(), b.drop_first(), c.drop_first());
        }
    }
}

/// The decimal digit for a value below ten.
pub open spec fn digit_char(d: int) -> char {
    ('0' as int + d) as char
}

/// The decimal digits of a number, most significant first, without leading zeros.
pub open spec fn decimal_digits(n: nat) -> Seq<char>
    decreases n,
{
    if n < 10 {
        seq![digit_char(n as int)]
    } else {
        decimal_digits(n / 10).push(digit_char((n % 10) as int))
    }
}

/// The decimal numeral of an integer: its digits, behind a minus sign when negative.
pub open spec fn decimal(v: int) -> Seq<char> {
    if v < 0 {
        seq!['-'] + decimal_digits((-v) as nat)
    } else {
        decimal_digits(v as nat)
    }
}

fn digit_str(d: u64) -> (r: &'static str)
    requires
        d < 10,
    ensures
        r@ == seq![digit_char(d as int)],
{
    proof {
        reveal_strlit("0");
        reveal_strlit("1");
        reveal_strlit("2");
        reveal_strlit("3");
        reveal_strlit("4");
        reveal_strlit("5");
        reveal_strlit("6");
        reveal_strlit("7");
        reveal_strlit("8");
        reveal_strlit("9");
    }
    match d {
        0 => "0",
        1 => "1",
        2 => "2",
        3 => "3",
        4 => "4",
        5 => "5",
        6 => "6",
        7 => "7",
        8 => "8",
        _ => "9",
    }
}

fn append_digits(out: &mut String, n: u64)
    ensures
        final(out)@ == old(out)@ + decimal_digits(n as nat),
    decreases n,
{
    if n >= 10 {
        append_digits(out, n / 10);
    }
    out.append(digit_str(n % 10));
    proof {
        assert(out@ =~= old(out)@ + decimal_digits(n as nat));
    }
}

/// Appends the decimal numeral of `v` to `out`.
pub fn append_decimal(out: &mut String, v: i64)
    ensures
        final(out)@ == old(out)@ + decimal(v as int),
{
    if v < 0 {
        proof {
            reveal_strlit("-");
        }
        out.append("-");
        let magnitude: i128 = -(v as i128);
        append_digits(out, magnitude as u64);
        proof {
            assert(out@ =~= old(out)@ + decimal(v as int));
        }
    } else {
        append_digits(out, v as u64);
    }
}

/// Whether `c` is an ASCII digit.
pub open spec fn is_digit(c: char) -> bool {
    '0' <= c <= '9'
}

/// The number that a run of digits stands for.
pub open spec fn digits_value(digits: Seq<char>) -> int
    decreases digits.len(),
{
    if digits.len() == 0 {
        0
    } else {
        digits_value(digits.drop_last()) * 10 + (digits.last() as int - '0' as int)
    }
}

/// A numeral without the plus sign that may stand in front of it.
pub open spec fn without_plus(s: Seq<char>) -> Seq<char> {
    if s.len() > 0 && s[0] == '+' {
        s.drop_first()
    } else {
        s
    }
}

/// The number that a text stands for: one or more digits, behind at most one plus sign, of a value
/// that fits 32 bits.
pub open spec fn parsed_u32(s: Seq<char>) -> Option<u32> {
    let digits = without_plus(s);
    if digits.len() > 0 && (forall|i: int| 0 <= i < digits.len() ==> is_digit(#[trigger] digits[i]))
        && digits_value(digits) <= u32::MAX {
        Some(digits_value(digits) as u32)
    } else {
        None
    }
}

/// Reads a decimal numeral.
pub fn parse_u32(s: &str) -> (r: Option<u32>)
    ensures
        r == parsed_u32(s@),
{
    let ghost digits = without_plus(s@);
    let mut value: u64 = 0;
    let mut seen: bool = false;
    let mut first: bool = true;
    let ghost skipped: int = s@.len() - digits.len();
    for c in it: s.chars()
        invariant
            it.seq() == s@,
            digits == without_plus(s@),
            skipped == s@.len() - digits.len(),
            first == (it.index() == 0),
            seen == (it.index() > skipped),
            it.index() >= skipped ==> forall|k: int|
                0 <= k < it.index() - skipped ==> is_digit(#[trigger] digits[k]),
            value <= 0x1_0000_0000,
            it.index() >= skipped ==> (if value <= u32::MAX {
                digits_value(digits.take(it.index() - skipped)) == value
            } else {
                digits_value(digits.take(it.index() - skipped)) > u32::MAX
            }),
            it.index() < skipped ==> value == 0,
    {
        let ghost at: int = it.index() as int;
        let plus = first && c == '+';
        first = false;
        if plus {
            assert(digits.take(0) =~= seq![]);
        } else {
            assert(at >= skipped);
            assert(digits[at - skipped] == c);
            if !('0' <= c && c <= '9') {
                assert(!is_digit(digits[at - skipped]));
                return None;
            }
            seen = true;
            assert(digits.take(at - skipped + 1).drop_last() =~= digits.take(at - skipped));
            let digit: u64 = (c as u32 - '0' as u32) as u64;
            if value <= 0xffff_ffff {
                value = value * 10 + digit;
                if value > 0xffff_ffff {
                    value = 0x1_0000_0000;
                }
            }
        }
    }
    assert(digits.take(digits.len() as int) =~= digits);
    if seen && value <= 0xffff_ffff {
        Some(value as u32)
    } else {
        None
    }
}

/// Whether `a` and `b` agree up to `k`, where `a` ends or has the smaller code point.
pub open spec fn comes_first_at(a: Seq<char>, b: Seq<char>, k: int) -> bool {
    &&& 0 <= k <= a.len()
    &&& k < b.len()
    &&& forall|i: int| 0 <= i < k ==> a[i] == b[i]
    &&& k == a.len() || (a[k] as int) < (b[k] as int)
}

/// The order is that of a dictionary: a string comes first if it is a proper beginning of the
/// other, or if it has the smaller code point where the two first differ.
pub proof fn law_dictionary_order(a: Seq<char>, b: Seq<char>)
    ensures
        compare_text(a, b) == Comparison::Before <==> exists|k: int| comes_first_at(a, b, k),
        compare_text(a, b) == Comparison::After <==> compare_text(b, a) == Comparison::Before,
        compare_text(a, b) == Comparison::Same <==> a == b,
    decreases a.len(),
{
    lemma_compare_same(a, b);
    lemma_compare_swap(b, a);
    if a.len() == 0 || b.len() == 0 || a[0] != b[0] {
        assert(compare_text(a, b) == Comparison::Before ==> comes_first_at(a, b, 0));
    } else {
        let (x, y) = (a.drop_first(), b.drop_first());
        law_dictionary_order(x, y);
        if compare_text(x, y) == Comparison::Before {
            let k = choose|k: int| comes_first_at(x, y, k);
            assert forall|i: int| 0 <= i < k + 1 implies a[i] == b[i] by {
                if i > 0 {
                    assert(x[i - 1] == y[i - 1]);
                }
            }
            assert(comes_first_at(a, b, k + 1));
        }
        if exists|k: int| comes_first_at(a, b, k) {
            let k = choose|k: int| comes_first_at(a, b, k);
            assert(comes_first_at(x, y, k - 1));
        }
    }
}

/// The numeral of a number below ten is its digit, one more digit makes ten times the number and
/// the digit, and a negative number has a minus sign in front of the numeral of its magnitude.
pub proof fn law_decimal_numerals(n: nat, d: int)
    requires
        0 <= d < 10,
    ensures
        decimal(d) == seq![(48 + d) as char],
        n > 0 ==> decimal(n * 10 + d) == decimal(n as int).push((48 + d) as char),
        n > 0 ==> decimal(-n) == seq!['-'] + decimal(n as int),
{
    assert(n > 0 ==> (n * 10 + d) as nat / 10 == n && (n * 10 + d) as nat % 10 == d);
}

proof fn lemma_digits_read_back(n: nat)
    ensures
        decimal_digits(n).len() > 0,
        forall|i: int| 0 <= i < decimal_digits(n).len() ==> is_digit(#[trigger] decimal_digits(n)[i]),
        digits_value(decimal_digits(n)) == n,
    decreases n,
{
    let digits = decimal_digits(n);
    if n < 10 {
        reveal_with_fuel(digits_value, 2);
        assert(digits.drop_last() =~= seq![]);
    } else {
        lemma_digits_read_back(n / 10);
        assert(digits.drop_last() =~= decimal_digits(n / 10));
    }
}

/// A number reads back from its numeral, with or without a plus sign.
pub proof fn law_numerals_read_back(n: u32)
    ensures
        parsed_u32(decimal(n as int)) == Some(n),
        parsed_u32(seq!['+'] + decimal(n as int)) == Some(n),
{
    let digits = decimal_digits(n as nat);
    lemma_digits_read_back(n as nat);
    assert(is_digit(digits[0]));
    assert((seq!['+'] + digits).drop_first() =~= digits);
}

proof fn lemma_value_not_negative(digits: Seq<char>)
    requires
        forall|i: int| 0 <= i < digits.len() ==> is_digit(#[trigger] digits[i]),
    ensures
        digits_value(digits) >= 0,
    decreases digits.len(),
{
    if digits.len() > 0 {
        let rest = digits.drop_last();
        assert forall|i: int| 0 <= i < rest.len() implies is_digit(#[trigger] rest[i]) by {
            assert(rest[i] == digits[i]);
        }
        lemma_value_not_negative(rest);
        assert(is_digit(digits[digits.len() - 1]));
    }
}

/// What is read: one or more digits and nothing else, behind at most one plus sign. One more digit
/// makes ten times the number and the digit, or nothing if that does not fit; a first digit is
/// worth itself.
pub proof fn law_numerals(s: Seq<char>, d: int)
    requires
        0 <= d < 10,
    ensures
        parsed_u32(seq![]) is None,
        parsed_u32(seq!['+']) is None,
        parsed_u32(seq![(48 + d) as char]) == Some(d as u32),
        parsed_u32(s) is Some ==> (forall|i: int|
            0 <= i < s.len() ==> 48 <= #[trigger] s[i] as int <= 57 || (i == 0 && s[i] == '+')),
        parsed_u32(s) matches Some(n) ==> parsed_u32(s.push((48 + d) as char)) == (if n * 10 + d
            <= u32::MAX {
            Some((n * 10 + d) as u32)
        } else {
            None
        }),
{
    let digit = (48 + d) as char;
    reveal_with_fuel(digits_value, 2);
    assert(seq!['+'].drop_first() =~= seq![]);
    assert(seq![digit].drop_last() =~= seq![]);
    assert(is_digit(seq![digit][0]));
    let digits = without_plus(s);
    if parsed_u32(s) is Some {
        assert forall|i: int| 0 <= i < s.len() implies 48 <= #[trigger] s[i] as int <= 57 || (i == 0
            && s[i] == '+') by {
            if s[0] == '+' {
                if i > 0 {
                    assert(is_digit(digits[i - 1]));
                }
            } else {
                assert(is_digit(digits[i]));
            }
        }
        let longer = s.push(digit);
        assert(without_plus(longer) =~= digits.push(digit));
        assert(digits.push(digit).drop_last() =~= digits);
        lemma_value_not_negative(digits);
        assert forall|i: int| 0 <= i < digits.push(digit).len() implies is_digit(
            #[trigger] digits.push(digit)[i],
        ) by {
            if i < digits.len() {
                assert(is_digit(digits[i]));
            }
        }
    }
}

/// What is no numeral, by its characters or by its size, does not become one by another character
/// behind it; only the empty string and a lone plus sign do. A digit behind a plus sign is worth
/// itself.
pub proof fn law_no_numeral_grows_into_one(s: Seq<char>, c: char, d: int)
    requires
        0 <= d < 10,
    ensures
        parsed_u32(s) is None && s.len() > 0 && s != seq!['+'] ==> parsed_u32(s.push(c)) is None,
        parsed_u32(seq!['+', (48 + d) as char]) == Some(d as u32),
{
    let digits = without_plus(s);
    let longer = s.push(c);
    if parsed_u32(s) is None && s.len() > 0 && s != seq!['+'] && parsed_u32(longer) is Some {
        assert(without_plus(longer) =~= digits.push(c));
        assert(digits.push(c).drop_last() =~= digits);
        assert forall|i: int| 0 <= i < digits.len() implies is_digit(#[trigger] digits[i]) by {
            assert(is_digit(digits.push(c)[i]));
        }
        assert(is_digit(digits.push(c)[digits.len() as int]));
        lemma_value_not_negative(digits);
        if digits.len() == 0 {
            assert(s =~= seq!['+']);
        }
    }
    let digit = (48 + d) as char;
    reveal_with_fuel(digits_value, 2);
    assert(seq!['+', digit].drop_first() =~= seq![digit]);
    assert(seq![digit].drop_last() =~= seq![]);
    assert(is_digit(seq![digit][0]));
}

} // verus!
