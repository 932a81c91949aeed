//! Decimal numbers as text, in both directions.

use vstd::prelude::*;
use vstd::string::*;

verus! {

/// Text as the contracts of this crate see it: a sequence of characters.
pub type Text = Seq<char>;

/// The character that stands for the digit `d`.
pub open spec fn digit_char(d: nat) -> char
    recommends
        d < 10,
{
    (('0' as nat) + d) as char
}

/// The decimal notation of `n`, without sign and without leading zeros.
pub open spec fn decimal(n: nat) -> Text
    decreases n,
{
    if n < 10 {
        seq![digit_char(n)]
    } else {
        decimal(n / 10).push(digit_char(n % 10))
    }
}

/// The digit `d` as a piece of text.
fn digit_text(d: u32) -> (s: &'static str)
    requires
        d < 10,
    ensures
        s@ == seq![digit_char(d as nat)],
{
    proof {
        reveal_strlit("0");
        reveal_strlit("1");
        reveal_strlit("2");
        reveal_strlit("3");
        reveal_strlit("4");
        reveal_strlit("5");
        reveal_strlit("6");
        reveal_strlit("7");
        reveal_strlit("8");
        reveal_strlit("9");
    }
    let s: &'static str = match d {
        0 => "0",
        1 => "1",
        2 => "2",
        3 => "3",
        4 => "4",
        5 => "5",
        6 => "6",
        7 => "7",
        8 => "8",
        _ => "9",
    };
    assert(s@ =~= seq![digit_char(d as nat)]);
    s
}

/// Appends the decimal notation of `n` to `out`.
pub fn append_decimal(out: &mut String, n: u32)
    ensures
        final(out)@ == old(out)@ + decimal(n as nat),
    decreases n,
{
    if n >= 10 {
        append_decimal(out, n / 10);
    }
    out.append(digit_text(n % 10));
    assert(out@ =~= old(out)@ + decimal(n as nat));
}

/// Whether `c` is one of the ten decimal digits.
pub open spec fn is_digit(c: char) -> bool {
    '0' <= c && c <= '9'
}

/// The number that the digit `c` stands for.
pub open spec fn digit_value(c: char) -> nat
    recommends
        is_digit(c),
{
    (c as nat - '0' as nat) as nat
}

/// Whether `s` holds decimal digits and nothing else.
pub open spec fn all_digits(s: Text) -> bool {
    forall|i: int| 0 <= i < s.len() ==> is_digit(#[trigger] s[i])
}

/// The number that the digits of `s` denote; leading zeros count for nothing.
pub open spec fn decimal_value(s: Text) -> nat
    decreases s.len(),
{
    if s.len() == 0 {
        0
    } else {
        decimal_value(s.drop_last()) * 10 + digit_value(s.last())
    }
}

/// The count that `s` denotes: `s` is a non-empty run of decimal digits whose
/// value is at least one and fits in 32 bits. Anything else denotes no count.
pub open spec fn count_of(s: Text) -> Option<u32> {
    if s.len() > 0 && all_digits(s) && 1 <= decimal_value(s) <= u32::MAX {
        Some(decimal_value(s) as u32)
    } else {
        None
    }
}

/// A longer run of digits never denotes a smaller number than its prefix.
proof fn lemma_value_grows(s: Text, k: int)
    requires
        0 <= k <= s.len(),
    ensures
        decimal_value(s.take(k)) <= decimal_value(s),
    decreases s.len() - k,
{
    if k == s.len() {
        assert(s.take(k) =~= s);
    } else {
        lemma_value_grows(s, k + 1);
        assert(s.take(k + 1).drop_last() =~= s.take(k));
    }
}

/// The digits of a number are digits, and they denote that number.
proof fn lemma_decimal_denotes(n: nat)
    ensures
        decimal(n).len() > 0,
        all_digits(decimal(n)),
        decimal_value(decimal(n)) == n,
    decreases n,
{
    reveal_with_fuel(decimal_value, 2);
    if n >= 10 {
        lemma_decimal_denotes(n / 10);
        let front = decimal(n / 10);
        assert(decimal(n).drop_last() =~= front);
        assert forall|i: int| 0 <= i < decimal(n).len() implies is_digit(
            #[trigger] decimal(n)[i],
        ) by {
            if i < front.len() {
                assert(decimal(n)[i] == front[i]);
            }
        }
    } else {
        assert(decimal(n).drop_last() =~= Seq::<char>::empty());
    }
}

/// What was written can be read. The decimal notation of a count denotes
/// that count.
pub proof fn law_written_count_reads_back(n: u32)
    requires
        n >= 1,
    ensures
        count_of(decimal(n as nat)) == Some(n),
{
    lemma_decimal_denotes(n as nat);
}

/// Reads a count: see [`count_of`].
pub fn parse_count(text: &str) -> (count: Option<u32>)
    ensures
        count == count_of(text@),
{
    let mut value: u32 = 0;
    let mut seen: bool = false;
    for c in it: text.chars()
        invariant
            it.seq() == text@,
            seen == (it.index() > 0),
            all_digits(text@.take(it.index())),
            value == decimal_value(text@.take(it.index())),
    {
        let ghost i: int = it.index();
        proof {
            assert(text@.take(i + 1).drop_last() =~= text@.take(i));
            assert(text@.take(i + 1).last() == c);
        }
        if !(c >= '0' && c <= '9') {
            assert(!all_digits(text@)) by {
                assert(text@[i] == c);
            }
            return None;
        }
        let d: u32 = c as u32 - '0' as u32;
        if value > (u32::MAX - d) / 10 {
            proof {
                lemma_value_grows(text@, i + 1);
            }
            return None;
        }
        value = value * 10 + d;
        seen = true;
        assert(all_digits(text@.take(i + 1))) by {
            assert forall|j: int| 0 <= j < i + 1 implies is_digit(
                #[trigger] text@.take(i + 1)[j],
            ) by {
                if j < i {
                    assert(text@.take(i)[j] == text@[j]);
                }
            }
        }
    }
    assert(text@.take(text@.len() as int) =~= text@);
    if !seen || value == 0 {
        None
    } else {
        Some(value)
    }
}

} // verus!
