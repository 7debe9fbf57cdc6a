//! Integers as text.

use vstd::prelude::*;

use crate::text::{chars_of, concat, string_of};

verus! {

/// The digit with the value `d`.
pub open spec fn digit(d: int) -> char {
    ((d + 48) as u8) as char
}

/// The digits of `n` in the given base.
pub open spec fn digits(n: nat, base: nat) -> Seq<char>
    decreases n,
    when base >= 2
{
    if n < base {
        seq![digit(n as int)]
    } else {
        proof {
            vstd::arithmetic::div_mod::lemma_div_decreases(n as int, base as int);
        }
        digits(n / base, base).push(digit((n % base) as int))
    }
}

fn write_digits(n: u64, base: u64) -> (r: Vec<char>)
    requires
        2 <= base <= 10,
    ensures
        r@ == digits(n as nat, base as nat),
    decreases n,
{
    let low: u64 = n % base;
    let mut out = if n < base {
        Vec::new()
    } else {
        proof {
            vstd::arithmetic::div_mod::lemma_div_decreases(n as int, base as int);
        }
        write_digits(n / base, base)
    };
    let c: u8 = low as u8 + 48;
    out.push(c as char);
    proof {
        if n < base {
            assert(low == n) by {
                vstd::arithmetic::div_mod::lemma_small_mod(n as nat, base as nat);
            }
            assert(out@ =~= seq![digit(n as int)]);
        }
    }
    out
}

/// `n` in decimal.
pub fn decimal(n: u64) -> (r: String)
    ensures
        r@ == digits(n as nat, 10),
{
    string_of(&write_digits(n, 10))
}

/// `n` in decimal, with a minus sign where it is negative.
pub open spec fn signed(n: int) -> Seq<char> {
    if n < 0 {
        "-"@ + digits((-n) as nat, 10)
    } else {
        digits(n as nat, 10)
    }
}

/// `n` in decimal, with a minus sign where it is negative.
pub fn signed_decimal(n: i32) -> (r: String)
    ensures
        r@ == signed(n as int),
{
    if n < 0 {
        let m: u64 = (-(n as i64)) as u64;
        concat("-", decimal(m).as_str())
    } else {
        decimal(n as u64)
    }
}

/// `n` in octal.
pub fn octal(n: u32) -> (r: String)
    ensures
        r@ == digits(n as nat, 8),
{
    string_of(&write_digits(n as u64, 8))
}

/// The number that a row of decimal digits stands for.
pub open spec fn value_of(s: Seq<char>) -> nat
    decreases s.len(),
{
    if s.len() == 0 {
        0
    } else {
        value_of(s.drop_last()) * 10 + (s.last() as nat - 48) as nat
    }
}

/// Whether `s` is a row of one or more decimal digits.
pub open spec fn is_digits(s: Seq<char>) -> bool {
    &&& s.len() > 0
    &&& forall|i: int| 0 <= i < s.len() ==> '0' <= #[trigger] s[i] && s[i] <= '9'
}

/// The 32-bit integer that `s` stands for: an optional sign and decimal digits.
pub open spec fn parsed_i32(s: Seq<char>) -> Option<int> {
    let negative = s.len() > 0 && s[0] == '-';
    let body = if s.len() > 0 && (s[0] == '-' || s[0] == '+') {
        s.drop_first()
    } else {
        s
    };
    let n = if negative {
        -value_of(body)
    } else {
        value_of(body) as int
    };
    if is_digits(body) && i32::MIN <= n <= i32::MAX {
        Some(n)
    } else {
        None
    }
}

/// The 32-bit integer that `s` stands for, if it stands for one.
pub fn parse_i32(s: &str) -> (r: Option<i32>)
    ensures
        match r {
            Some(n) => parsed_i32(s@) == Some(n as int),
            None => parsed_i32(s@) is None,
        },
{
    let cs = chars_of(s);
    let negative = cs.len() > 0 && cs[0] == '-';
    let start: usize = if cs.len() > 0 && (cs[0] == '-' || cs[0] == '+') {
        1
    } else {
        0
    };
    let ghost body = cs@.skip(start as int);
    proof {
        assert(cs@.skip(0) =~= cs@);
        if start == 1 {
            assert(body =~= cs@.drop_first());
        }
    }
    if start == cs.len() {
        return None;
    }
    let mut total: u64 = 0;
    let mut i: usize = start;
    let mut all_digits = true;
    let mut fits = true;
    while i < cs.len()
        invariant
            start <= i <= cs@.len(),
            body == cs@.skip(start as int),
            all_digits <==> forall|j: int|
                0 <= j < i - start ==> '0' <= #[trigger] body[j] && body[j] <= '9',
            all_digits && fits ==> total == value_of(body.take(i - start)) && total <= 0x8000_0000,
            all_digits && !fits ==> value_of(body.take(i - start)) > 0x8000_0000,
        decreases cs.len() - i,
    {
        let c = cs[i];
        proof {
            assert(body[i - start] == c);
            let next = body.take(i - start + 1);
            assert(next.drop_last() =~= body.take(i - start));
            assert(next.last() == c);
        }
        if !('0' <= c && c <= '9') {
            all_digits = false;
        } else if all_digits && fits {
            let low: u64 = (c as u8) as u64 - 48;
            total = total * 10 + low;
            if total > 0x8000_0000 {
                fits = false;
            }
        }
        i = i + 1;
    }
    proof {
        assert(body.take(i - start) =~= body);
    }
    if !all_digits || !fits {
        return None;
    }
    if negative {
        Some((-(total as i64)) as i32)
    } else if total < 0x8000_0000 {
        Some(total as i32)
    } else {
        None
    }
}

} // verus!
