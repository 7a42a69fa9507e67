//! Decimal notation: rendering integers as digit strings and reading
//! them back.
//!
//! The discovery-file codec and the per-user path derivation both build
//! on these functions and on the lemmas relating a number to its digits.

use vstd::prelude::*;
use vstd::string::StringExecFns;

verus! {

/// A decimal digit character.
pub open spec fn is_dec_digit(c: char) -> bool {
    48 <= c as int <= 57
}

/// The digit character for a value below ten.
pub open spec fn digit_char(d: nat) -> char
    recommends
        d < 10,
{
    if d == 0 {
        '0'
    } else if d == 1 {
        '1'
    } else if d == 2 {
        '2'
    } else if d == 3 {
        '3'
    } else if d == 4 {
        '4'
    } else if d == 5 {
        '5'
    } else if d == 6 {
        '6'
    } else if d == 7 {
        '7'
    } else if d == 8 {
        '8'
    } else {
        '9'
    }
}

/// The value of a digit character.
pub open spec fn digit_val(c: char) -> nat {
    (c as int - 48) as nat
}

/// The digits of `n` in decimal, most significant first, with no sign
/// and no leading zero (a lone zero for `n == 0`).
pub open spec fn dec_digits(n: nat) -> Seq<char>
    decreases n,
{
    if n < 10 {
        seq![digit_char(n)]
    } else {
        dec_digits(n / 10) + seq![digit_char(n % 10)]
    }
}

/// The digits of `n` in decimal with a leading minus sign when negative.
pub open spec fn dec_digits_signed(n: int) -> Seq<char> {
    if n < 0 {
        seq!['-'] + dec_digits((-n) as nat)
    } else {
        dec_digits(n as nat)
    }
}

/// True when every character of `s` is a decimal digit.
pub open spec fn all_dec_digits(s: Seq<char>) -> bool {
    forall|i: int| 0 <= i < s.len() ==> is_dec_digit(s[i])
}

/// The number a digit string denotes.
pub open spec fn dec_value(s: Seq<char>) -> nat
    decreases s.len(),
{
    if s.len() == 0 {
        0
    } else {
        dec_value(s.drop_last()) * 10 + digit_val(s.last())
    }
}

/// Ten to the `k`.
pub open spec fn pow10(k: nat) -> nat
    decreases k,
{
    if k == 0 {
        1
    } else {
        10 * pow10((k - 1) as nat)
    }
}

/// The digit character of a value below ten is a digit and denotes that
/// value.
pub proof fn lemma_digit_char_val(d: nat)
    requires
        d < 10,
    ensures
        is_dec_digit(digit_char(d)),
        digit_val(digit_char(d)) == d,
{
}

/// A number's digit string is nonempty and made of digits only.
pub proof fn lemma_dec_digits_are_digits(n: nat)
    ensures
        dec_digits(n).len() >= 1,
        all_dec_digits(dec_digits(n)),
    decreases n,
{
    if n < 10 {
        lemma_digit_char_val(n);
    } else {
        lemma_dec_digits_are_digits(n / 10);
        lemma_digit_char_val(n % 10);
        assert forall|i: int| 0 <= i < dec_digits(n).len() implies is_dec_digit(
            dec_digits(n)[i],
        ) by {
            if i < dec_digits(n / 10).len() {
                assert(dec_digits(n)[i] == dec_digits(n / 10)[i]);
            } else {
                assert(dec_digits(n)[i] == digit_char(n % 10));
            }
        }
    }
}

/// Reading a number's digit string gives the number back.
pub proof fn lemma_dec_value_of_digits(n: nat)
    ensures
        dec_value(dec_digits(n)) == n,
    decreases n,
{
    if n < 10 {
        lemma_digit_char_val(n);
        let s = dec_digits(n);
        assert(s.drop_last() =~= Seq::<char>::empty());
        assert(s.last() == digit_char(n));
        assert(dec_value(s) == dec_value(Seq::<char>::empty()) * 10 + digit_val(digit_char(n)));
    } else {
        lemma_dec_value_of_digits(n / 10);
        lemma_digit_char_val(n % 10);
        let s = dec_digits(n);
        assert(s.drop_last() =~= dec_digits(n / 10));
        assert(s.last() == digit_char(n % 10));
        assert(dec_value(s) == dec_value(dec_digits(n / 10)) * 10 + digit_val(digit_char(n % 10)));
        vstd::arithmetic::div_mod::lemma_fundamental_div_mod(n as int, 10);
    }
}

/// A number below ten to the `k` has at most `k` digits.
pub proof fn lemma_dec_digits_len(n: nat, k: nat)
    requires
        n < pow10(k),
        k >= 1,
    ensures
        dec_digits(n).len() <= k,
    decreases k,
{
    if n < 10 {
    } else {
        assert(pow10(k) == 10 * pow10((k - 1) as nat));
        assert(n / 10 < pow10((k - 1) as nat)) by {
            assert(n < 10 * pow10((k - 1) as nat));
        }
        assert(k >= 2) by {
            if k == 1 {
                assert(pow10(1nat) == 10);
            }
        }
        lemma_dec_digits_len(n / 10, (k - 1) as nat);
    }
}

/// Where a run of digits starting at `i` ends: the index of the first
/// non-digit at or after `i` (or the end of the string).
pub open spec fn digits_end(s: Seq<char>, i: int) -> int
    decreases s.len() - i
        when 0 <= i <= s.len()
{
    if i < s.len() && is_dec_digit(s[i]) {
        digits_end(s, i + 1)
    } else {
        i
    }
}

/// The digit run ends exactly at the first non-digit position.
pub proof fn lemma_digits_end_exact(s: Seq<char>, i: int, j: int)
    requires
        0 <= i <= j <= s.len(),
        forall|k: int| i <= k < j ==> is_dec_digit(s[k]),
        j == s.len() || !is_dec_digit(s[j]),
    ensures
        digits_end(s, i) == j,
    decreases j - i,
{
    if i < j {
        lemma_digits_end_exact(s, i + 1, j);
    }
}

/// One digit as a string slice.
fn digit_str(d: u64) -> (r: &'static str)
    requires
        d < 10,
    ensures
        r@ == seq![digit_char(d as nat)],
{
    if d == 0 {
        proof {
            reveal_strlit("0");
            assert("0"@ =~= seq![digit_char(0nat)]);
        }
        "0"
    } else if d == 1 {
        proof {
            reveal_strlit("1");
            assert("1"@ =~= seq![digit_char(1nat)]);
        }
        "1"
    } else if d == 2 {
        proof {
            reveal_strlit("2");
            assert("2"@ =~= seq![digit_char(2nat)]);
        }
        "2"
    } else if d == 3 {
        proof {
            reveal_strlit("3");
            assert("3"@ =~= seq![digit_char(3nat)]);
        }
        "3"
    } else if d == 4 {
        proof {
            reveal_strlit("4");
            assert("4"@ =~= seq![digit_char(4nat)]);
        }
        "4"
    } else if d == 5 {
        proof {
            reveal_strlit("5");
            assert("5"@ =~= seq![digit_char(5nat)]);
        }
        "5"
    } else if d == 6 {
        proof {
            reveal_strlit("6");
            assert("6"@ =~= seq![digit_char(6nat)]);
        }
        "6"
    } else if d == 7 {
        proof {
            reveal_strlit("7");
            assert("7"@ =~= seq![digit_char(7nat)]);
        }
        "7"
    } else if d == 8 {
        proof {
            reveal_strlit("8");
            assert("8"@ =~= seq![digit_char(8nat)]);
        }
        "8"
    } else {
        proof {
            reveal_strlit("9");
            assert("9"@ =~= seq![digit_char(9nat)]);
        }
        "9"
    }
}

/// Render an unsigned number in decimal.
pub fn u64_to_decimal(n: u64) -> (r: String)
    ensures
        r@ == dec_digits(n as nat),
    decreases n,
{
    if n < 10 {
        let r = String::from_str(digit_str(n));
        r
    } else {
        let mut r = u64_to_decimal(n / 10);
        r.append(digit_str(n % 10));
        r
    }
}

/// Render a signed number in decimal, with a leading minus sign when
/// negative.
pub fn i64_to_decimal(n: i64) -> (r: String)
    ensures
        r@ == dec_digits_signed(n as int),
{
    if n >= 0 {
        let r = u64_to_decimal(n as u64);
        r
    } else {
        // Negate without overflowing on the smallest value.
        let mag: u64 = ((-(n + 1)) as u64) + 1;
        proof {
            assert(mag == -(n as int));
        }
        let mut r = String::from_str("-");
        r.append(u64_to_decimal(mag).as_str());
        proof {
            reveal_strlit("-");
            assert("-"@ =~= seq!['-']);
            assert(r@ =~= dec_digits_signed(n as int));
        }
        r
    }
}

/// Read the value of the digit run `s[start..end]`. With at most
/// nineteen digits the value fits a `u64`.
pub fn parse_dec_run(s: &str, start: usize, end: usize) -> (r: u64)
    requires
        0 <= start <= end <= s@.len(),
        end - start <= 19,
        forall|k: int| start <= k < end ==> is_dec_digit(s@[k]),
    ensures
        r as nat == dec_value(s@.subrange(start as int, end as int)),
{
    let mut i: usize = start;
    let mut val: u64 = 0;
    proof {
        assert(s@.subrange(start as int, start as int) =~= Seq::<char>::empty());
    }
    while i < end
        invariant
            start <= i <= end <= s@.len(),
            end - start <= 19,
            forall|k: int| start <= k < end ==> is_dec_digit(s@[k]),
            val as nat == dec_value(s@.subrange(start as int, i as int)),
            (val as nat) < pow10((i - start) as nat),
        decreases end - i,
    {
        let c = s.get_char(i);
        let d: u64 = (c as u32 as u64) - 48;
        proof {
            let prefix = s@.subrange(start as int, i as int);
            let next = s@.subrange(start as int, i as int + 1);
            assert(next.drop_last() =~= prefix);
            assert(next.last() == s@[i as int]);
            assert(d == digit_val(s@[i as int]));
            assert((i + 1 - start) as nat <= 19);
            lemma_pow10_le_19((i + 1 - start) as nat);
            assert(pow10((i + 1 - start) as nat) == 10 * pow10((i - start) as nat));
        }
        val = val * 10 + d;
        i = i + 1;
    }
    val
}

/// Ten to the nineteenth still fits a `u64`.
proof fn lemma_pow10_le_19(k: nat)
    requires
        k <= 19,
    ensures
        pow10(k) <= 10000000000000000000,
    decreases k,
{
    reveal_with_fuel(pow10, 20);
    if k > 0 {
        lemma_pow10_le_19((k - 1) as nat);
        lemma_pow10_increases((k - 1) as nat, 19nat);
    }
}

/// `pow10` is monotone.
pub proof fn lemma_pow10_increases(a: nat, b: nat)
    requires
        a <= b,
    ensures
        pow10(a) <= pow10(b),
    decreases b,
{
    if a < b {
        lemma_pow10_increases(a, (b - 1) as nat);
        assert(pow10(b) == 10 * pow10((b - 1) as nat));
    }
}

} // verus!
