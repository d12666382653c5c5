//! Proved laws of the cardinal wording, stated over the spec functions that
//! the contract of [`crate::number_to_cardinal`] uses.

use vstd::prelude::*;

use crate::cardinal::cardinal_words;
use crate::words::{ones_word, teens_word, tens_word};

verus! {

/// A single digit is worded by the digit table alone, and its negation by
/// the same word behind the prefix `"minus "`.
pub proof fn lemma_single_digit_words(n: int)
    requires
        1 <= n <= 9,
    ensures
        cardinal_words(n) == ones_word(n),
        cardinal_words(-n) == "minus "@ + ones_word(n),
{
}

/// A number in [11, 19] is worded by the teen table alone, while 10 falls
/// outside that table and is worded `"ten"` from the tens table.
pub proof fn lemma_teen_words(n: int)
    requires
        11 <= n <= 19,
    ensures
        cardinal_words(n) == teens_word(n),
        cardinal_words(10) == tens_word(1),
{
}

/// A multiple of ten in [20, 90] is worded by the tens table alone, and a
/// number `10 * t + u` with a nonzero units digit `u` joins the tens word and
/// the digit word with a hyphen.
pub proof fn lemma_tens_words(t: int, u: int)
    requires
        2 <= t <= 9,
        0 <= u <= 9,
    ensures
        u == 0 ==> cardinal_words(10 * t) == tens_word(t),
        u != 0 ==> cardinal_words(10 * t + u) == tens_word(t) + "-"@ + ones_word(u),
{
}

/// The sign is a prefix and nothing more: for every positive `n`, the wording
/// of `-n` is the wording of `n` behind `"minus "`. Of a negative `n` this
/// does not hold — `-n` is then positive and carries no prefix at all — so
/// the law is stated for positive `n` only.
pub proof fn lemma_minus_prefix(n: int)
    requires
        1 <= n,
    ensures
        cardinal_words(-n) == "minus "@ + cardinal_words(n),
{
}

} // verus!
