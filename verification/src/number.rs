//! Decimal numbers as `u64::from_str` reads them.
use vstd::prelude::*;

verus! {

/// An ASCII decimal digit.
pub open spec fn is_digit(c: char) -> bool {
    '0' <= c <= '9'
}

/// The value of one decimal digit.
pub open spec fn digit_value(c: char) -> nat {
    (c as int - '0' as int) as nat
}

/// The value of a string of decimal digits, most significant first.
pub open spec fn decimal_value(s: Seq<char>) -> nat
    decreases s.len(),
{
    if s.len() == 0 {
        0
    } else {
        decimal_value(s.drop_last()) * 10 + digit_value(s.last())
    }
}

/// The digits of `s` once an optional leading `+` is set aside.
pub open spec fn unsigned_digits(s: Seq<char>) -> Seq<char> {
    if s.len() > 0 && s[0] == '+' {
        s.drop_first()
    } else {
        s
    }
}

/// What `s.parse::<u64>()` gives, `None` for each error: an optional `+`,
/// then one or more ASCII digits whose value fits in a `u64`.
pub open spec fn parsed_u64(s: Seq<char>) -> Option<u64> {
    let d = unsigned_digits(s);
    if d.len() > 0 && (forall|i: int| 0 <= i < d.len() ==> is_digit(#[trigger] d[i]))
        && decimal_value(d) <= u64::MAX {
        Some(decimal_value(d) as u64)
    } else {
        None
    }
}

/// Appending digits never lowers the value.
proof fn lemma_decimal_prefix_le(s: Seq<char>, i: int)
    requires
        0 <= i <= s.len(),
        forall|k: int| 0 <= k < s.len() ==> is_digit(#[trigger] s[k]),
    ensures
        decimal_value(s.subrange(0, i)) <= decimal_value(s),
    decreases s.len() - i,
{
    if i < s.len() {
        lemma_decimal_prefix_le(s, i + 1);
        let p = s.subrange(0, i + 1);
        assert(p.drop_last() =~= s.subrange(0, i));
        let x = decimal_value(s.subrange(0, i));
        assert(x <= x * 10 + digit_value(p.last())) by (nonlinear_arith);
    } else {
        assert(s.subrange(0, i) =~= s);
    }
}

/// Reads `s` as `u64::from_str` does; `None` where it would fail.
pub fn parse_u64(s: &str) -> (r: Option<u64>)
    ensures
        r == parsed_u64(s@),
{
    let v = crate::text::chars_of(s);
    let n = v.len();
    let mut i: usize = 0;
    if n > 0 && v[0] == '+' {
        i = 1;
    }
    let start = i;
    let ghost d = unsigned_digits(s@);
    assert(d =~= s@.subrange(start as int, n as int));
    if start == n {
        return None;
    }
    let mut value: u64 = 0;
    while i < n
        invariant
            v@ == s@,
            n == s@.len(),
            d == s@.subrange(start as int, n as int),
            d == unsigned_digits(s@),
            start < n,
            start <= i <= n,
            forall|k: int| start <= k < i ==> is_digit(#[trigger] s@[k]),
            value as nat == decimal_value(s@.subrange(start as int, i as int)),
        decreases n - i,
    {
        let c = v[i];
        if !('0' <= c && c <= '9') {
            assert(!is_digit(d[i - start]));
            return None;
        }
        let digit: u64 = (c as u64) - ('0' as u64);
        proof {
            let p = s@.subrange(start as int, i + 1);
            assert(p.drop_last() =~= s@.subrange(start as int, i as int));
            assert(p.last() == c);
        }
        if value > (u64::MAX - digit) / 10 {
            proof {
                assert(value * 10 + digit > u64::MAX) by (nonlinear_arith)
                    requires value > (u64::MAX - digit) / 10, digit <= 9;
                assert forall|k: int| 0 <= k < i + 1 - start implies is_digit(
                    #[trigger] s@.subrange(start as int, i + 1)[k],
                ) by {
                    assert(s@.subrange(start as int, i + 1)[k] == s@[start + k]);
                }
                lemma_decimal_prefix_le(s@.subrange(start as int, i + 1), i + 1 - start);
                if forall|k: int| 0 <= k < d.len() ==> is_digit(#[trigger] d[k]) {
                    assert(s@.subrange(start as int, i + 1) =~= d.subrange(0, i + 1 - start));
                    lemma_decimal_prefix_le(d, i + 1 - start);
                }
            }
            return None;
        }
        assert(value * 10 + digit <= u64::MAX) by (nonlinear_arith)
            requires value <= (u64::MAX - digit) / 10, digit <= 9;
        value = value * 10 + digit;
        i = i + 1;
    }
    assert forall|k: int| 0 <= k < d.len() implies is_digit(#[trigger] d[k]) by {
        assert(d[k] == s@[start + k]);
    }
    Some(value)
}

/// Reading numbers: a result is the value of the digits after an optional
/// leading `+`; text with no digits, with a char that is not a digit (a `-`
/// sign or a space included), or with a value over `u64::MAX` gives none; and
/// a leading `+` does not change the result.
pub proof fn law_parse_u64(s: Seq<char>)
    ensures
        parsed_u64(s) matches Some(v) ==> v == decimal_value(unsigned_digits(s)) && unsigned_digits(
            s,
        ).len() > 0,
        s.len() == 0 ==> parsed_u64(s) is None,
        s.len() > 0 && !is_digit(s[0]) && s[0] != '+' ==> parsed_u64(s) is None,
        s.len() == 0 || s[0] != '+' ==> parsed_u64(seq!['+'] + s) == parsed_u64(s),
        forall|i: int|
            0 <= i < unsigned_digits(s).len() && !is_digit(#[trigger] unsigned_digits(s)[i])
                ==> parsed_u64(s) is None,
{
    if s.len() == 0 || s[0] != '+' {
        assert((seq!['+'] + s).drop_first() =~= s);
    }
}

/// The value of digits grows by one decimal place per digit appended.
pub proof fn law_decimal_value_append(s: Seq<char>, c: char)
    ensures
        decimal_value(s.push(c)) == decimal_value(s) * 10 + digit_value(c),
        decimal_value(Seq::empty()) == 0,
{
    assert(s.push(c).drop_last() =~= s);
}

} // verus!
