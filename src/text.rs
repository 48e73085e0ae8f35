//! Decimal text of integers, and parsing it back.

use vstd::prelude::*;

verus! {

/// The character of a decimal digit `d` (0 through 9).
pub open spec fn digit_char(d: nat) -> char {
    if d == 0 {
        '0'
    } else if d == 1 {
        '1'
    } else if d == 2 {
        '2'
    } else if d == 3 {
        '3'
    } else if d == 4 {
        '4'
    } else if d == 5 {
        '5'
    } else if d == 6 {
        '6'
    } else if d == 7 {
        '7'
    } else if d == 8 {
        '8'
    } else {
        '9'
    }
}

/// The decimal digits of `n`, most significant first, without leading zeros.
pub open spec fn decimal_nat(n: nat) -> Seq<char>
    decreases n,
{
    if n < 10 {
        seq![digit_char(n)]
    } else {
        decimal_nat(n / 10).push(digit_char(n % 10))
    }
}

/// The decimal text of `n`, with a leading '-' when it is negative.
pub open spec fn decimal_text(n: int) -> Seq<char> {
    if n < 0 {
        seq!['-'] + decimal_nat((-n) as nat)
    } else {
        decimal_nat(n as nat)
    }
}

/// The text of one decimal digit.
fn digit_str(d: u64) -> (r: &'static str)
    requires
        d < 10,
    ensures
        r@ == seq![digit_char(d as nat)],
{
    if d == 0 {
        proof {
            reveal_strlit("0");
        }
        "0"
    } else if d == 1 {
        proof {
            reveal_strlit("1");
        }
        "1"
    } else if d == 2 {
        proof {
            reveal_strlit("2");
        }
        "2"
    } else if d == 3 {
        proof {
            reveal_strlit("3");
        }
        "3"
    } else if d == 4 {
        proof {
            reveal_strlit("4");
        }
        "4"
    } else if d == 5 {
        proof {
            reveal_strlit("5");
        }
        "5"
    } else if d == 6 {
        proof {
            reveal_strlit("6");
        }
        "6"
    } else if d == 7 {
        proof {
            reveal_strlit("7");
        }
        "7"
    } else if d == 8 {
        proof {
            reveal_strlit("8");
        }
        "8"
    } else {
        proof {
            reveal_strlit("9");
        }
        "9"
    }
}

/// Appends the decimal digits of `n`.
fn push_digits(s: &mut String, n: u64)
    ensures
        final(s)@ == old(s)@ + decimal_nat(n as nat),
    decreases n,
{
    let ghost start = s@;
    if n >= 10 {
        push_digits(s, n / 10);
    }
    s.append(digit_str(n % 10));
    proof {
        if n >= 10 {
            assert(s@ =~= start + decimal_nat(n as nat));
        } else {
            assert(s@ =~= start + decimal_nat(n as nat));
        }
    }
}

/// The decimal text of `n`.
pub(crate) fn u64_text(n: u64) -> (r: String)
    ensures
        r@ == decimal_text(n as int),
{
    let mut s = String::new();
    push_digits(&mut s, n);
    proof {
        assert(s@ =~= decimal_text(n as int));
    }
    s
}

/// The decimal text of `n`, with a leading '-' when it is negative.
pub(crate) fn i64_text(n: i64) -> (r: String)
    ensures
        r@ == decimal_text(n as int),
{
    if n < 0 {
        let mut s = String::from_str("-");
        let m: u64 = (0i128 - n as i128) as u64;
        push_digits(&mut s, m);
        proof {
            reveal_strlit("-");
            assert(s@ =~= decimal_text(n as int));
        }
        s
    } else {
        u64_text(n as u64)
    }
}

/// The decimal text of `n`.
pub(crate) fn u16_text(n: u16) -> (r: String)
    ensures
        r@ == decimal_text(n as int),
{
    u64_text(n as u64)
}

/// Whether `c` is an ASCII digit.
pub open spec fn is_digit(c: char) -> bool {
    '0' <= c && c <= '9'
}

/// The value of an ASCII digit.
pub open spec fn digit_value(c: char) -> nat {
    (c as u32 - '0' as u32) as nat
}

/// The value of a run of ASCII digits.
pub open spec fn digits_value(s: Seq<char>) -> nat
    decreases s.len(),
{
    if s.len() == 0 {
        0
    } else {
        digits_value(s.drop_last()) * 10 + digit_value(s.last())
    }
}

/// The digits of an unsigned number's text, after an optional '+'.
pub open spec fn unsigned_body(s: Seq<char>) -> Seq<char> {
    if s.len() > 0 && s[0] == '+' {
        s.drop_first()
    } else {
        s
    }
}

/// What parsing `s` as an unsigned number of at most `limit` gives, as
/// `str::parse` does for the unsigned integer types: an optional '+', then
/// one or more ASCII digits whose value does not pass the limit.
pub open spec fn parsed_unsigned(s: Seq<char>, limit: nat) -> Option<nat> {
    let b = unsigned_body(s);
    if b.len() > 0 && (forall|i: int| 0 <= i < b.len() ==> is_digit(#[trigger] b[i]))
        && digits_value(b) <= limit {
        Some(digits_value(b))
    } else {
        None
    }
}

/// A prefix of a run of digits is worth no more than the whole run.
proof fn lemma_prefix_value_le(t: Seq<char>, i: int)
    requires
        0 <= i <= t.len(),
    ensures
        digits_value(t.take(i)) <= digits_value(t),
    decreases t.len(),
{
    if i < t.len() {
        lemma_prefix_value_le(t.drop_last(), i);
        assert(t.drop_last().take(i) =~= t.take(i));
        let x = digits_value(t.drop_last());
        assert(x <= x * 10) by (nonlinear_arith);
    } else {
        assert(t.take(i) =~= t);
    }
}

/// Parses `s` as an unsigned number of at most `limit`.
pub fn parse_unsigned(s: &str, limit: u64) -> (r: Option<u64>)
    ensures
        match parsed_unsigned(s@, limit as nat) {
            Some(n) => r == Some(n as u64),
            None => r is None,
        },
{
    let n = s.unicode_len();
    let mut i: usize = 0;
    if n > 0 && s.get_char(0) == '+' {
        i = 1;
    }
    let start = i;
    let ghost b = unsigned_body(s@);
    proof {
        assert(b =~= s@.subrange(start as int, n as int));
    }
    if i == n {
        return None;
    }
    let mut v: u64 = 0;
    while i < n
        invariant
            n == s@.len(),
            start <= i <= n,
            b == s@.subrange(start as int, n as int),
            b == unsigned_body(s@),
            v as nat == digits_value(b.take(i - start)),
            v <= limit,
            forall|j: int| 0 <= j < i - start ==> is_digit(#[trigger] b[j]),
        decreases n - i,
    {
        let c = s.get_char(i);
        proof {
            assert(b[i - start] == c);
        }
        if !('0' <= c && c <= '9') {
            proof {
                let k = i - start;
                assert(0 <= k < b.len() && !is_digit(b[k]));
                assert(parsed_unsigned(s@, limit as nat) is None);
            }
            return None;
        }
        let d = (c as u32 - '0' as u32) as u64;
        let next: u128 = v as u128 * 10 + d as u128;
        proof {
            assert(b.take(i - start + 1).drop_last() =~= b.take(i - start));
            assert(next as nat == digits_value(b.take(i - start + 1)));
        }
        if next > limit as u128 {
            proof {
                lemma_prefix_value_le(b, i - start + 1);
                assert(digits_value(b) > limit);
                assert(parsed_unsigned(s@, limit as nat) is None);
            }
            return None;
        }
        v = next as u64;
        i = i + 1;
    }
    proof {
        assert(b.take(n - start) =~= b);
    }
    Some(v)
}

/// The decimal text of `n`.
pub(crate) fn u32_text(n: u32) -> (r: String)
    ensures
        r@ == decimal_text(n as int),
{
    u64_text(n as u64)
}


/// A digit's character reads back as the digit.
proof fn lemma_digit_char(k: nat)
    requires
        k < 10,
    ensures
        is_digit(digit_char(k)),
        digit_value(digit_char(k)) == k,
{
    assert('0' as u32 == 48);
    if k == 0 {
        assert('0' as u32 == 48);
    } else if k == 1 {
        assert('1' as u32 == 49);
    } else if k == 2 {
        assert('2' as u32 == 50);
    } else if k == 3 {
        assert('3' as u32 == 51);
    } else if k == 4 {
        assert('4' as u32 == 52);
    } else if k == 5 {
        assert('5' as u32 == 53);
    } else if k == 6 {
        assert('6' as u32 == 54);
    } else if k == 7 {
        assert('7' as u32 == 55);
    } else if k == 8 {
        assert('8' as u32 == 56);
    } else {
        assert('9' as u32 == 57);
    }
}

/// The digits of a number read back give the number.
pub proof fn lemma_decimal_digits(n: nat)
    ensures
        decimal_nat(n).len() > 0,
        forall|i: int| 0 <= i < decimal_nat(n).len() ==> is_digit(#[trigger] decimal_nat(n)[i]),
        digits_value(decimal_nat(n)) == n,
    decreases n,
{
    lemma_digit_char(n % 10);
    if n < 10 {
        lemma_digit_char(n);
        assert(decimal_nat(n).drop_last() =~= Seq::<char>::empty());
        assert(digits_value(decimal_nat(n)) == digits_value(decimal_nat(n).drop_last()) * 10
            + digit_value(decimal_nat(n).last()));
    } else {
        lemma_decimal_digits(n / 10);
        let d = decimal_nat(n);
        assert(d.drop_last() =~= decimal_nat(n / 10));
        assert(forall|i: int| 0 <= i < d.len() - 1 ==> d[i] == decimal_nat(n / 10)[i]);
        assert(d.last() == digit_char(n % 10));
        assert(digits_value(d) == digits_value(d.drop_last()) * 10 + digit_value(d.last()));
        assert((n / 10) * 10 + n % 10 == n) by (nonlinear_arith);
    }
}

/// A number's decimal text parses back to the number, within any limit it
/// does not pass.
pub proof fn lemma_parse_decimal(n: nat, limit: nat)
    requires
        n <= limit,
    ensures
        parsed_unsigned(decimal_text(n as int), limit) == Some(n),
{
    lemma_decimal_digits(n);
    let d = decimal_nat(n);
    assert(is_digit(d[0]));
    assert(unsigned_body(d) == d);
}

} // verus!
