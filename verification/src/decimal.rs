//! Decimal text to `i64`, with the grammar of `str::parse::<i64>`: an optional
//! `+` or `-`, then one or more ASCII digits, and nothing else; a value outside
//! the range of `i64` is refused.
use vstd::prelude::*;

verus! {

/// An ASCII decimal digit.
pub open spec fn is_decimal_digit(c: char) -> bool {
    '0' <= c && c <= '9'
}

/// The number that an ASCII decimal digit stands for.
pub open spec fn digit_of(c: char) -> int {
    (c as int) - ('0' as int)
}

/// Every character of `s` is an ASCII decimal digit.
pub open spec fn all_decimal_digits(s: Seq<char>) -> bool {
    forall|i: int| 0 <= i < s.len() ==> is_decimal_digit(#[trigger] s[i])
}

/// The value of a string of decimal digits, most significant first.
pub open spec fn decimal_value(s: Seq<char>) -> int
    decreases s.len(),
{
    if s.len() == 0 {
        0
    } else {
        10 * decimal_value(s.drop_last()) + digit_of(s.last())
    }
}

/// `s` starts with a sign character.
pub open spec fn has_sign(s: Seq<char>) -> bool {
    s.len() > 0 && (s[0] == '+' || s[0] == '-')
}

/// `s` without its leading sign, if it has one.
pub open spec fn unsigned_part(s: Seq<char>) -> Seq<char> {
    if has_sign(s) {
        s.drop_first()
    } else {
        s
    }
}

/// The value that `s` denotes, its sign applied.
pub open spec fn signed_value(s: Seq<char>) -> int {
    if s.len() > 0 && s[0] == '-' {
        -decimal_value(unsigned_part(s))
    } else {
        decimal_value(unsigned_part(s))
    }
}

/// `s` has the shape of a decimal integer: an optional sign, then at least one digit.
pub open spec fn is_decimal_integer(s: Seq<char>) -> bool {
    unsigned_part(s).len() > 0 && all_decimal_digits(unsigned_part(s))
}

/// The `i64` that `s` denotes, or `None` where `s` is not a decimal integer
/// or its value does not fit in an `i64`.
pub open spec fn parsed_i64(s: Seq<char>) -> Option<i64> {
    if is_decimal_integer(s) && i64::MIN <= signed_value(s) <= i64::MAX {
        Some(signed_value(s) as i64)
    } else {
        None
    }
}

proof fn lemma_decimal_value_nonneg(s: Seq<char>)
    requires
        all_decimal_digits(s),
    ensures
        decimal_value(s) >= 0,
    decreases s.len(),
{
    if s.len() > 0 {
        assert(is_decimal_digit(s[s.len() - 1]));
        assert(all_decimal_digits(s.drop_last())) by {
            assert forall|i: int| 0 <= i < s.drop_last().len() implies is_decimal_digit(
                #[trigger] s.drop_last()[i],
            ) by {
                assert(s.drop_last()[i] == s[i]);
            }
        }
        lemma_decimal_value_nonneg(s.drop_last());
    }
}

/// The value of a digit string is at least that of any of its prefixes.
proof fn lemma_decimal_value_prefix(s: Seq<char>, k: int)
    requires
        all_decimal_digits(s),
        0 <= k <= s.len(),
    ensures
        decimal_value(s.subrange(0, k)) <= decimal_value(s),
    decreases s.len(),
{
    if k == s.len() {
        assert(s.subrange(0, k) =~= s);
    } else {
        let t = s.drop_last();
        assert(all_decimal_digits(t)) by {
            assert forall|i: int| 0 <= i < t.len() implies is_decimal_digit(#[trigger] t[i]) by {
                assert(t[i] == s[i]);
            }
        }
        assert(is_decimal_digit(s[s.len() - 1]));
        lemma_decimal_value_prefix(t, k);
        assert(t.subrange(0, k) =~= s.subrange(0, k));
        lemma_decimal_value_nonneg(t);
    }
}

/// The characters of `s`, in order.
pub fn chars_of(s: &str) -> (v: Vec<char>)
    ensures
        v@ == s@,
{
    broadcast use vstd::string::axiom_spec_iter;

    let mut v: Vec<char> = Vec::new();
    for c in it: s.chars()
        invariant
            v@ == it.seq().take(it.index()),
    {
        v.push(c);
    }
    v
}

/// Reads `s` as a decimal `i64`. It is `Some` exactly when `s` is an optional
/// `+` or `-` followed by one or more ASCII digits whose value fits in an `i64`.
pub fn parse_i64(s: &str) -> (r: Option<i64>)
    ensures
        r == parsed_i64(s@),
{
    let cs = chars_of(s);
    let n = cs.len();
    if n == 0 {
        return None;
    }
    let negative = cs[0] == '-';
    let start: usize = if cs[0] == '-' || cs[0] == '+' {
        1
    } else {
        0
    };
    let ghost d = unsigned_part(s@);
    assert(d =~= s@.subrange(start as int, n as int));
    if start == n {
        return None;
    }
    let mut acc: i64 = 0;
    let mut i: usize = start;
    while i < n
        invariant
            start <= i <= n,
            start < n,
            n == cs@.len(),
            cs@ == s@,
            d == s@.subrange(start as int, n as int),
            negative == (s@[0] == '-'),
            start == (if has_sign(s@) { 1usize } else { 0usize }),
            all_decimal_digits(d.subrange(0, i - start)),
            acc == (if negative {
                -decimal_value(d.subrange(0, i - start))
            } else {
                decimal_value(d.subrange(0, i - start))
            }),
        decreases n - i,
    {
        let c = cs[i];
        if !('0' <= c && c <= '9') {
            assert(d[i - start] == c);
            assert(!all_decimal_digits(d));
            return None;
        }
        let digit: i128 = (c as u32 - '0' as u32) as i128;
        let next: i128 = if negative {
            (acc as i128) * 10 - digit
        } else {
            (acc as i128) * 10 + digit
        };
        let ghost prefix = d.subrange(0, i - start + 1);
        proof {
            assert(prefix.drop_last() =~= d.subrange(0, i - start));
            assert(prefix.last() == c);
            assert(digit == digit_of(c));
            assert(decimal_value(prefix) == 10 * decimal_value(d.subrange(0, i - start)) + digit);
            assert(all_decimal_digits(prefix)) by {
                assert forall|j: int| 0 <= j < prefix.len() implies is_decimal_digit(
                    #[trigger] prefix[j],
                ) by {
                    if j < prefix.len() - 1 {
                        assert(prefix[j] == d.subrange(0, i - start)[j]);
                    }
                }
            }
        }
        if next < i64::MIN as i128 || next > i64::MAX as i128 {
            proof {
                if all_decimal_digits(d) {
                    lemma_decimal_value_prefix(d, i - start + 1);
                    assert(d.subrange(0, i - start + 1) == prefix);
                    lemma_decimal_value_nonneg(prefix);
                    assert(unsigned_part(s@) == d);
                }
            }
            return None;
        }
        acc = next as i64;
        i = i + 1;
    }
    proof {
        assert(d.subrange(0, n - start) =~= d);
    }
    Some(acc)
}


/// The character of a decimal digit `d` (0 to 9).
pub open spec fn digit_char(d: int) -> char {
    (('0' as int) + d) as char
}

/// The digits of `n` in decimal, most significant first, without leading zeros
/// ("0" for zero).
pub open spec fn decimal_digits(n: nat) -> Seq<char>
    decreases n,
{
    if n < 10 {
        seq![digit_char(n as int)]
    } else {
        decimal_digits(n / 10).push(digit_char((n % 10) as int))
    }
}

/// The decimal text of `n`, as `to_string` writes an integer: a `-` for a
/// negative number, then its digits.
pub open spec fn decimal_text(n: int) -> Seq<char> {
    if n < 0 {
        seq!['-'] + decimal_digits((-n) as nat)
    } else {
        decimal_digits(n as nat)
    }
}

proof fn lemma_decimal_digits(n: nat)
    ensures
        decimal_digits(n).len() > 0,
        all_decimal_digits(decimal_digits(n)),
        decimal_value(decimal_digits(n)) == n,
    decreases n,
{
    if n < 10 {
        let s = decimal_digits(n);
        assert(s.drop_last() =~= Seq::<char>::empty());
        assert(digit_of(digit_char(n as int)) == n);
        assert(s.last() == digit_char(n as int));
        assert(decimal_value(Seq::<char>::empty()) == 0);
    } else {
        lemma_decimal_digits(n / 10);
        let s = decimal_digits(n);
        let t = decimal_digits(n / 10);
        assert(s.drop_last() =~= t);
        assert(digit_of(digit_char((n % 10) as int)) == n % 10);
        assert(s.last() == digit_char((n % 10) as int));
        assert(n == 10 * (n / 10) + n % 10) by (nonlinear_arith);
        assert forall|i: int| 0 <= i < s.len() implies is_decimal_digit(#[trigger] s[i]) by {
            if i < t.len() {
                assert(s[i] == t[i]);
            }
        }
    }
}

/// Reading back the decimal text of an `i64` gives that `i64`.
pub proof fn decimal_text_reads_back(n: i64)
    ensures
        parsed_i64(decimal_text(n as int)) == Some(n),
{
    let text = decimal_text(n as int);
    if n < 0 {
        let m = (-(n as int)) as nat;
        lemma_decimal_digits(m);
        assert(text[0] == '-');
        assert(unsigned_part(text) =~= decimal_digits(m));
    } else {
        lemma_decimal_digits(n as nat);
        assert(is_decimal_digit(text[0]));
        assert(unsigned_part(text) == text);
    }
}

} // verus!
