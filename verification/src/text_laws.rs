//! What the text forms of numbers say.

use crate::text;
use vstd::prelude::*;

verus! {

/// The number that a row of decimal digits stands for.
pub open spec fn number_of(digits: Seq<char>) -> int
    decreases digits.len(),
{
    if digits.len() == 0 {
        0
    } else {
        10 * number_of(digits.drop_last()) + (digits.last() as int - '0' as int)
    }
}

/// The decimal form of a number reads back as that number. It has only digits in
/// it, at least one, and does not start with a zero unless that is all.
pub proof fn law_decimals_read_back(n: nat)
    ensures
        number_of(text::decimal(n)) == n,
        text::decimal(n).len() > 0,
        forall|i: int|
            0 <= i < text::decimal(n).len() ==> '0' as int <= #[trigger] text::decimal(n)[i] as int
                <= '9' as int,
        text::decimal(n)[0] == '0' ==> n == 0,
        n == 0 ==> text::decimal(n) == seq!['0'],
    decreases n,
{
    let digits = text::decimal(n);
    if n < 10 {
        assert(digits.drop_last() =~= Seq::empty());
        assert(number_of(digits.drop_last()) == 0);
    } else {
        law_decimals_read_back(n / 10);
        assert(digits.drop_last() =~= text::decimal(n / 10));
        assert forall|i: int| 0 <= i < digits.len() implies '0' as int
            <= #[trigger] digits[i] as int <= '9' as int by {
            if i < digits.len() - 1 {
                assert(digits[i] == text::decimal(n / 10)[i]);
            }
        }
        assert(digits[0] == text::decimal(n / 10)[0]);
    }
}

/// Different numbers have different forms.
pub proof fn law_decimals_differ(m: nat, n: nat)
    ensures
        text::decimal(m) == text::decimal(n) <==> m == n,
{
    law_decimals_read_back(m);
    law_decimals_read_back(n);
}

/// A number that is there stands between `Some(` and `)`, and one that is missing
/// is `None`.
pub proof fn law_optional_numbers(n: u64)
    ensures
        text::debug_optional(None) == "None"@,
        text::debug_optional(Some(n)) == "Some("@ + text::decimal(n as nat) + ")"@,
{
}

} // verus!
