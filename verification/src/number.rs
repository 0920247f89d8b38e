//! Unsigned numbers in base ten: reading one out of text, and writing one.

use vstd::prelude::*;

verus! {

/// Whether `c` is one of the ten decimal digits.
pub open spec fn is_digit(c: char) -> bool {
    '0' <= c <= '9'
}

/// The number that the digit `c` stands for.
pub open spec fn digit_value(c: char) -> nat {
    (c as u32 - '0' as u32) as nat
}

/// The digit that stands for `d`, for `d` below ten.
pub open spec fn digit_char(d: nat) -> char {
    ('0' as u32 + d) as char
}

/// Whether `s` holds decimal digits only.
pub open spec fn all_digits(s: Seq<char>) -> bool {
    forall|i: int| 0 <= i < s.len() ==> is_digit(#[trigger] s[i])
}

/// The number that the digits of `s` write in base ten.
pub open spec fn number(s: Seq<char>) -> nat
    decreases s.len(),
{
    if s.len() == 0 {
        0
    } else {
        10 * number(s.drop_last()) + digit_value(s.last())
    }
}

/// `s` without one plus sign at its front, if it has one.
pub open spec fn unsigned(s: Seq<char>) -> Seq<char> {
    if s.len() > 0 && s[0] == '+' {
        s.drop_first()
    } else {
        s
    }
}

/// What `s` reads as a `u32`: an optional plus sign, then one or more decimal
/// digits and nothing else, writing a number that fits.
pub open spec fn parsed_u32(s: Seq<char>) -> Option<u32> {
    let d = unsigned(s);
    if d.len() > 0 && all_digits(d) && number(d) <= u32::MAX {
        Some(number(d) as u32)
    } else {
        None
    }
}

/// The digits of `n` in base ten, without leading zeros; one `0` for zero.
pub open spec fn decimal(n: nat) -> Seq<char>
    decreases n,
{
    if n < 10 {
        seq![digit_char(n)]
    } else {
        decimal(n / 10).push(digit_char(n % 10))
    }
}

/// A number is at least what any of its leading digits write.
pub proof fn lemma_number_grows(s: Seq<char>, k: int)
    requires
        0 <= k <= s.len(),
    ensures
        number(s.take(k)) <= number(s),
    decreases s.len() - k,
{
    if k < s.len() {
        assert(s.drop_last().take(k) == s.take(k));
        lemma_number_grows(s.drop_last(), k);
    } else {
        assert(s.take(k) == s);
    }
}

/// What is written in base ten holds digits only, at least one, and writes
/// the number.
pub proof fn lemma_decimal_writes(n: nat)
    ensures
        decimal(n).len() >= 1,
        all_digits(decimal(n)),
        number(decimal(n)) == n,
    decreases n,
{
    let d = decimal(n);
    if n < 10 {
        assert(number(d.drop_last()) == 0);
    } else {
        lemma_decimal_writes(n / 10);
        assert(d.drop_last() == decimal(n / 10));
    }
}

/// A `u32` written in base ten reads back as itself.
pub proof fn lemma_decimal_reads_back(n: u32)
    ensures
        parsed_u32(decimal(n as nat)) == Some(n),
{
    lemma_decimal_writes(n as nat);
}

/// Reads `s` as a `u32` in base ten.
pub fn parse_u32(s: &str) -> (r: Option<u32>)
    ensures
        r == parsed_u32(s@),
{
    let n: usize = s.unicode_len();
    let first: usize = if n > 0 && s.get_char(0) == '+' {
        1
    } else {
        0
    };
    let ghost d = unsigned(s@);
    if first == n {
        return None;
    }
    let mut acc: u64 = 0;
    let mut i: usize = first;
    while i < n
        invariant
            n == s@.len(),
            first <= i <= n,
            d == unsigned(s@),
            d == s@.skip(first as int),
            all_digits(d.take(i - first)),
            acc == number(d.take(i - first)),
            acc <= u32::MAX,
        decreases n - i,
    {
        let c: char = s.get_char(i);
        if !('0' <= c && c <= '9') {
            assert(!is_digit(d[i - first]));
            return None;
        }
        let v: u64 = (c as u32 - '0' as u32) as u64;
        assert(d.take(i - first + 1).drop_last() == d.take(i - first));
        acc = acc * 10 + v;
        if acc > 0xffff_ffff {
            proof {
                lemma_number_grows(d, i - first + 1);
            }
            return None;
        }
        i = i + 1;
    }
    assert(d.take(n - first) == d);
    Some(acc as u32)
}

/// The one-character text of the digit for `d`.
fn digit_text(d: u32) -> (r: &'static str)
    requires
        d < 10,
    ensures
        r@ == seq![digit_char(d as nat)],
{
    proof {
        reveal_strlit("0");
        reveal_strlit("1");
        reveal_strlit("2");
        reveal_strlit("3");
        reveal_strlit("4");
        reveal_strlit("5");
        reveal_strlit("6");
        reveal_strlit("7");
        reveal_strlit("8");
        reveal_strlit("9");
    }
    if d == 0 {
        "0"
    } else if d == 1 {
        "1"
    } else if d == 2 {
        "2"
    } else if d == 3 {
        "3"
    } else if d == 4 {
        "4"
    } else if d == 5 {
        "5"
    } else if d == 6 {
        "6"
    } else if d == 7 {
        "7"
    } else if d == 8 {
        "8"
    } else {
        "9"
    }
}

/// Writes `n` in base ten. What is written reads back as `n`.
pub fn decimal_string(n: u32) -> (r: String)
    ensures
        r@ == decimal(n as nat),
        parsed_u32(r@) == Some(n),
{
    proof {
        lemma_decimal_reads_back(n);
    }
    let mut out: String = String::from_str(digit_text(n % 10));
    let mut rest: u32 = n / 10;
    while rest > 0
        invariant
            decimal(n as nat) == (if rest > 0 {
                decimal(rest as nat)
            } else {
                Seq::<char>::empty()
            }) + out@,
        decreases rest,
    {
        out = String::from_str(digit_text(rest % 10)).concat(out.as_str());
        rest = rest / 10;
    }
    out
}

} // verus!
