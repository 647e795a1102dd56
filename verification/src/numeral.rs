//! Decimal numerals: the parsing done by the numeric-input opcode and the
//! formatting done by the numeric-output opcode.
//!
//! Parsing accepts an optional leading `+`, then one or more ASCII digits,
//! and rejects anything else or a value that does not fit in 32 bits.
//! Formatting produces the usual decimal digits, most significant first,
//! with no sign and no leading zeros (`0` for zero).

use vstd::prelude::*;

verus! {

/// Whether `c` is an ASCII decimal digit.
pub open spec fn is_digit(c: char) -> bool {
    48 <= c as u32 && c as u32 <= 57
}

/// The numeric value of the digit `c`.
pub open spec fn digit_val(c: char) -> nat
    recommends
        is_digit(c),
{
    (c as u32 - 48) as nat
}

/// Whether every character of `s` is an ASCII decimal digit.
pub open spec fn all_digits(s: Seq<char>) -> bool {
    forall|i: int| 0 <= i < s.len() ==> is_digit(s[i])
}

/// The numeric value of the digit string `s`, most significant digit
/// first.
pub open spec fn dec_value(s: Seq<char>) -> nat
    recommends
        all_digits(s),
    decreases s.len(),
{
    if s.len() == 0 {
        0
    } else {
        dec_value(s.drop_last()) * 10 + digit_val(s.last())
    }
}

/// What parsing an unsigned 32-bit decimal accepts: an optional leading
/// `+`, then one or more digits whose value fits in 32 bits.
pub open spec fn parse_u32_spec(s: Seq<char>) -> Option<u32> {
    let t = if s.len() > 0 && s[0] == '+' {
        s.skip(1)
    } else {
        s
    };
    if t.len() > 0 && all_digits(t) && dec_value(t) <= u32::MAX {
        Some(dec_value(t) as u32)
    } else {
        None
    }
}

/// A digit string's value never shrinks when digits are appended: the
/// value of any prefix bounds the value of the whole.
proof fn lemma_dec_value_prefix(t: Seq<char>, j: int)
    requires
        0 <= j <= t.len(),
    ensures
        dec_value(t.take(j)) <= dec_value(t),
    decreases t.len() - j,
{
    if j < t.len() {
        assert(t.take(j + 1).drop_last() =~= t.take(j));
        assert(t.take(j + 1).last() == t[j]);
        lemma_dec_value_prefix(t, j + 1);
    } else {
        assert(t.take(j) =~= t);
    }
}

/// Parses the whole of `s` as an unsigned 32-bit decimal, exactly as
/// [`parse_u32_spec`] says.
pub fn parse_u32(s: &Vec<char>) -> (r: Option<u32>)
    ensures
        r == parse_u32_spec(s@),
{
    let n = s.len();
    let start: usize = if n > 0 && s[0] == '+' {
        1
    } else {
        0
    };
    let ghost t = if start == 1 {
        s@.skip(1)
    } else {
        s@
    };
    if start == n {
        return None;
    }
    let mut i: usize = start;
    let mut acc: u32 = 0;
    while i < n
        invariant
            start <= i <= n,
            start == 0 || start == 1,
            n == s@.len(),
            start == 1 ==> n > 0 && s@[0] == '+' && t == s@.skip(1),
            start == 0 ==> t == s@ && (n == 0 || s@[0] != '+'),
            all_digits(t.take(i - start)),
            acc == dec_value(t.take(i - start)),
        decreases n - i,
    {
        let c = s[i];
        let cu = c as u32;
        proof {
            assert(t[i - start] == s@[i as int]);
            assert(t.take(i + 1 - start).drop_last() =~= t.take(i - start));
            assert(t.take(i + 1 - start).last() == t[i - start]);
        }
        if cu < 48 || cu > 57 {
            proof {
                assert(!is_digit(t[i - start]));
            }
            return None;
        }
        let d = cu - 48;
        if acc > (u32::MAX - d) / 10 {
            proof {
                assert(dec_value(t.take(i + 1 - start)) > u32::MAX);
                lemma_dec_value_prefix(t, i + 1 - start);
            }
            return None;
        }
        acc = acc * 10 + d;
        i = i + 1;
    }
    proof {
        assert(t.take(n - start) =~= t);
    }
    Some(acc)
}

/// The decimal digits of `n`, most significant first, with no digits at
/// all for zero. [`dec_repr`] wraps this to give zero its single digit.
pub open spec fn dec_digits(n: nat) -> Seq<char>
    decreases n,
{
    if n == 0 {
        Seq::empty()
    } else {
        dec_digits(n / 10) + seq![digit_char(n % 10)]
    }
}

/// The character for the digit `d`.
pub open spec fn digit_char(d: nat) -> char
    recommends
        d < 10,
{
    ((d + 48) as u8) as char
}

/// The decimal representation of `n`: its digits most significant first,
/// `0` for zero.
pub open spec fn dec_repr(n: nat) -> Seq<char> {
    if n == 0 {
        seq!['0']
    } else {
        dec_digits(n)
    }
}

/// Formats `n` as its decimal representation.
pub fn u32_to_decimal(n: u32) -> (r: Vec<char>)
    ensures
        r@ == dec_repr(n as nat),
{
    let mut rev: Vec<char> = Vec::new();
    let mut m = n;
    loop
        invariant_except_break
            n > 0 ==> m > 0 && dec_digits(n as nat) == dec_digits(m as nat) + rev@.reverse(),
            n == 0 ==> m == 0 && rev@ =~= Seq::<char>::empty(),
        ensures
            rev@.reverse() == dec_repr(n as nat),
        decreases m,
    {
        let d = m % 10;
        let c = (48 + d) as u8 as char;
        proof {
            assert((rev@ + seq![c]).reverse() =~= seq![c] + rev@.reverse());
            if n == 0 {
                assert((rev@ + seq![c]).reverse() =~= seq!['0']);
            } else if m / 10 == 0 {
                assert(dec_digits(0) =~= Seq::<char>::empty());
                assert(dec_digits(m as nat) =~= seq![digit_char((m % 10) as nat)]);
            }
        }
        rev.push(c);
        m = m / 10;
        if m == 0 {
            break;
        }
    }
    let mut r: Vec<char> = Vec::new();
    let k = rev.len();
    let mut j: usize = 0;
    while j < k
        invariant
            0 <= j <= k,
            k == rev@.len(),
            r@ =~= rev@.reverse().take(j as int),
        decreases k - j,
    {
        r.push(rev[k - 1 - j]);
        proof {
            assert(r@ =~= rev@.reverse().take(j + 1));
        }
        j = j + 1;
    }
    proof {
        assert(rev@.reverse().take(k as int) =~= rev@.reverse());
    }
    r
}

} // verus!
