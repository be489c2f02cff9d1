//! Decimal text: rendering cent amounts the way the session records
//! them in its transaction history, and parsing a menu selection from
//! a line of input.

use vstd::prelude::*;
use vstd::string::*;

verus! {

/// The character for one decimal digit.
pub open spec fn digit_char(d: int) -> char {
    if d == 0 {
        '0'
    } else if d == 1 {
        '1'
    } else if d == 2 {
        '2'
    } else if d == 3 {
        '3'
    } else if d == 4 {
        '4'
    } else if d == 5 {
        '5'
    } else if d == 6 {
        '6'
    } else if d == 7 {
        '7'
    } else if d == 8 {
        '8'
    } else {
        '9'
    }
}

/// The decimal digits of a non-negative number, most significant first.
pub open spec fn dec_digits(n: nat) -> Seq<char>
    decreases n,
{
    if n < 10 {
        seq![digit_char(n as int)]
    } else {
        dec_digits(n / 10) + seq![digit_char((n % 10) as int)]
    }
}

/// How a cent amount is written in a history entry: the whole dollars,
/// then the cents with trailing zeros dropped, as in "12", "12.5" or
/// "12.34".
pub open spec fn amount_text(cents: int) -> Seq<char>
    recommends
        cents >= 0,
{
    let whole = cents / 100;
    let frac = cents % 100;
    if frac == 0 {
        dec_digits(whole as nat)
    } else if frac % 10 == 0 {
        dec_digits(whole as nat) + seq!['.', digit_char(frac / 10)]
    } else {
        dec_digits(whole as nat) + seq!['.', digit_char(frac / 10), digit_char(frac % 10)]
    }
}

/// The text recorded in the history for one debit attempt.
pub open spec fn entry_text(action: Seq<char>, cents: int, success: bool) -> Seq<char> {
    action + " of $"@ + amount_text(cents) + (if success {
        " successfull"@
    } else {
        " failed"@
    })
}

/// The one-character string for a digit value.
fn digit_str(d: u64) -> (s: &'static str)
    requires
        d < 10,
    ensures
        s@ == seq![digit_char(d as int)],
{
    proof {
        reveal_strlit("0");
        reveal_strlit("1");
        reveal_strlit("2");
        reveal_strlit("3");
        reveal_strlit("4");
        reveal_strlit("5");
        reveal_strlit("6");
        reveal_strlit("7");
        reveal_strlit("8");
        reveal_strlit("9");
    }
    let r: &'static str = match d {
        0 => "0",
        1 => "1",
        2 => "2",
        3 => "3",
        4 => "4",
        5 => "5",
        6 => "6",
        7 => "7",
        8 => "8",
        _ => "9",
    };
    proof {
        assert(r@ =~= seq![digit_char(d as int)]);
    }
    r
}

/// Renders a number in decimal.
pub fn decimal_string(n: u64) -> (s: String)
    ensures
        s@ == dec_digits(n as nat),
    decreases n,
{
    if n < 10 {
        let s = String::from_str(digit_str(n));
        proof {
            assert(s@ =~= dec_digits(n as nat));
        }
        s
    } else {
        let mut s = decimal_string(n / 10);
        s.append(digit_str(n % 10));
        proof {
            assert(s@ =~= dec_digits(n as nat));
        }
        s
    }
}

/// Renders a non-negative cent amount as the history writes it.
pub fn amount_string(cents: i64) -> (s: String)
    requires
        cents >= 0,
    ensures
        s@ == amount_text(cents as int),
{
    let c: u64 = cents as u64;
    let whole: u64 = c / 100;
    let frac: u64 = c % 100;
    let mut s = decimal_string(whole);
    if frac != 0 {
        s.append(".");
        s.append(digit_str(frac / 10));
        if frac % 10 != 0 {
            s.append(digit_str(frac % 10));
        }
    }
    proof {
        reveal_strlit(".");
        assert(s@ =~= amount_text(cents as int));
    }
    s
}

/// Renders the history entry for one debit attempt.
pub fn format_entry(action: &str, cents: i64, success: bool) -> (s: String)
    requires
        cents >= 0,
    ensures
        s@ == entry_text(action@, cents as int, success),
{
    let mut s = action.to_owned();
    s.append(" of $");
    let amt = amount_string(cents);
    s.append(amt.as_str());
    if success {
        s.append(" successfull");
    } else {
        s.append(" failed");
    }
    proof {
        assert(s@ =~= entry_text(action@, cents as int, success));
    }
    s
}

/// A decimal digit character.
pub open spec fn is_digit(c: char) -> bool {
    48 <= c as int && c as int <= 57
}

/// The value of one digit character.
pub open spec fn digit_val(c: char) -> int {
    c as int - 48
}

/// Whether every character of the text is a decimal digit.
pub open spec fn all_digits(s: Seq<char>) -> bool {
    forall|i: int| 0 <= i < s.len() ==> is_digit(s[i])
}

/// The value of a string of digit characters, read in base ten.
pub open spec fn digits_val(s: Seq<char>) -> int
    decreases s.len(),
{
    if s.len() == 0 {
        0
    } else {
        digits_val(s.drop_last()) * 10 + digit_val(s.last())
    }
}

/// What a menu selection line means: the value of a non-empty, all-digit
/// line whose value fits in a u32; anything else is no selection.
pub open spec fn parse_u32_text(s: Seq<char>) -> Option<u32> {
    if s.len() > 0 && all_digits(s) && digits_val(s) <= u32::MAX {
        Some(digits_val(s) as u32)
    } else {
        None
    }
}

proof fn lemma_digits_val_nonneg(s: Seq<char>)
    requires
        all_digits(s),
    ensures
        digits_val(s) >= 0,
    decreases s.len(),
{
    if s.len() > 0 {
        assert(all_digits(s.drop_last()));
        lemma_digits_val_nonneg(s.drop_last());
    }
}

proof fn lemma_digits_val_monotone(s: Seq<char>, i: int, j: int)
    requires
        all_digits(s),
        0 <= i <= j <= s.len(),
    ensures
        digits_val(s.take(i)) <= digits_val(s.take(j)),
    decreases j - i,
{
    if i < j {
        lemma_digits_val_monotone(s, i, j - 1);
        assert(s.take(j).drop_last() =~= s.take(j - 1));
        assert(all_digits(s.take(j - 1)));
        lemma_digits_val_nonneg(s.take(j - 1));
        assert(is_digit(s[j - 1]));
    }
}

/// Parses a line as an unsigned decimal number: the whole line must be
/// digits and the value must fit in a u32.
pub fn parse_u32(s: &str) -> (r: Option<u32>)
    ensures
        r == parse_u32_text(s@),
{
    let n: usize = s.unicode_len();
    if n == 0 {
        return None;
    }
    let mut val: u64 = 0;
    let mut i: usize = 0;
    while i < n
        invariant
            0 < n == s@.len(),
            i <= n,
            all_digits(s@.take(i as int)),
            val == digits_val(s@.take(i as int)),
            val <= u32::MAX,
        decreases n - i,
    {
        let c: char = s.get_char(i);
        let u: u32 = c as u32;
        if u < 48 || u > 57 {
            proof {
                assert(!is_digit(s@[i as int]));
                assert(!all_digits(s@));
            }
            return None;
        }
        let d: u64 = (u - 48) as u64;
        val = val * 10 + d;
        proof {
            assert(s@.take(i + 1).drop_last() =~= s@.take(i as int));
            assert(s@.take(i + 1).last() == s@[i as int]);
            assert(val == digits_val(s@.take(i + 1)));
        }
        if val > 0xFFFF_FFFF {
            proof {
                if all_digits(s@) {
                    lemma_digits_val_monotone(s@, i + 1, n as int);
                    assert(s@.take(n as int) =~= s@);
                }
            }
            return None;
        }
        i = i + 1;
    }
    proof {
        assert(s@.take(n as int) =~= s@);
    }
    Some(val as u32)
}

} // verus!
