//! Conversion of a 64-bit signed integer into English cardinal words.
//!
//! The spec function [`cardinal_words`] defines the wording: a magnitude is
//! split into base-1000 groups, each nonzero group is named by
//! [`segment_words`] followed by its scale name, all-zero groups are skipped,
//! the groups are joined most-significant first by single spaces, and a
//! negative number carries the prefix `"minus "`. The executable entry point
//! [`number_to_cardinal`] returns exactly that text.

use vstd::prelude::*;
use vstd::string::StringExecFns;

use crate::words::{ones_word, scale_word, teens_word, tens_word};
use crate::words::{ones_str, scale_str, teens_str, tens_str};

verus! {

/// The words for a remainder `r` in [0, 99]: nothing for 0, a digit word,
/// `"ten"`, a teen word, or a tens word with a hyphenated digit word.
pub open spec fn under_hundred_words(r: int) -> Seq<char> {
    if 11 <= r <= 19 {
        teens_word(r)
    } else if 1 <= r <= 9 {
        ones_word(r)
    } else if r == 10 {
        tens_word(1)
    } else if 20 <= r <= 99 {
        if r % 10 == 0 {
            tens_word(r / 10)
        } else {
            tens_word(r / 10) + "-"@ + ones_word(r % 10)
        }
    } else {
        Seq::empty()
    }
}

/// The words for one 3-digit group `n` in [0, 999]: the hundreds part,
/// `" and "` before a nonzero remainder, then the remainder's words.
/// For `n == 0` the result is empty.
pub open spec fn segment_words(n: int) -> Seq<char> {
    if 100 <= n <= 999 {
        if n % 100 == 0 {
            ones_word(n / 100) + " hundred"@
        } else {
            ones_word(n / 100) + " hundred"@ + " and "@ + under_hundred_words(n % 100)
        }
    } else {
        under_hundred_words(n)
    }
}

/// The words for a nonzero group `g` at scale position `scale_idx`:
/// the group's own words, followed by a space and the scale name when the
/// group is above the units position.
pub open spec fn group_words(g: int, scale_idx: int) -> Seq<char> {
    if 1 <= scale_idx {
        segment_words(g) + " "@ + scale_word(scale_idx)
    } else {
        segment_words(g)
    }
}

/// How many base-1000 groups the magnitude `m` occupies.
pub open spec fn num_groups(m: nat) -> nat
    decreases m,
{
    if m == 0 {
        0
    } else {
        1 + num_groups(m / 1000)
    }
}

/// The words for a positive magnitude `m` whose lowest group sits at scale
/// position `scale_idx`: the nonzero groups' words, most-significant first,
/// joined by single spaces, with all-zero groups skipped.
pub open spec fn magnitude_words(m: nat, scale_idx: nat) -> Seq<char>
    decreases m,
{
    if m == 0 {
        Seq::empty()
    } else {
        let g = (m % 1000) as int;
        let rest = m / 1000;
        if rest == 0 {
            group_words(g, scale_idx as int)
        } else if g == 0 {
            magnitude_words(rest, scale_idx + 1)
        } else {
            magnitude_words(rest, scale_idx + 1) + " "@ + group_words(g, scale_idx as int)
        }
    }
}

/// The full cardinal wording of `n`: `"zero"` for 0, otherwise the words of
/// the magnitude, with the prefix `"minus "` when `n` is negative.
pub open spec fn cardinal_words(n: int) -> Seq<char> {
    if n == 0 {
        "zero"@
    } else if n < 0 {
        "minus "@ + magnitude_words((-n) as nat, 0)
    } else {
        magnitude_words(n as nat, 0)
    }
}

/// Converts a number in [0, 999] to its cardinal words.
fn convert_number_to_cardinal(number: i64) -> (r: String)
    requires
        0 <= number <= 999,
    ensures
        r@ == segment_words(number as int),
{
    let mut words = String::new();

    if number >= 100 {
        words.append(ones_str((number / 100) as u64));
        words.append(" hundred");
        if number % 100 != 0 {
            words.append(" and ");
        }
    }

    let remainder = number % 100;

    if remainder >= 11 && remainder <= 19 {
        words.append(teens_str(remainder as u64));
    } else if remainder >= 1 && remainder <= 9 {
        words.append(ones_str(remainder as u64));
    } else if remainder == 10 {
        words.append(tens_str(1));
    } else if remainder >= 20 {
        words.append(tens_str((remainder / 10) as u64));
        if remainder % 10 != 0 {
            words.append("-");
            words.append(ones_str((remainder % 10) as u64));
        }
    }

    proof {
        assert(words@ =~= segment_words(number as int));
    }
    words
}

/// Converts one 3-digit group to its cardinal words with its scale name
/// appended, or returns `None` for an all-zero group, which the final
/// assembly skips entirely.
fn get_chunk_words(chunk: u64, scale_idx: usize) -> (r: Option<String>)
    requires
        chunk <= 999,
        scale_idx <= 6,
    ensures
        r is Some <==> chunk != 0,
        r matches Some(s) ==> s@ == group_words(chunk as int, scale_idx as int),
{
    if chunk == 0 {
        return None;
    }

    let mut result = convert_number_to_cardinal(chunk as i64);
    if scale_idx > 0 {
        result.append(" ");
        result.append(scale_str(scale_idx));
    }
    Some(result)
}

/// Converts a positive magnitude whose lowest group sits at scale position
/// `scale_idx`, walking the groups from the least significant up and placing
/// each nonzero group's words in front of the text gathered so far.
fn magnitude_to_words(num: u64, scale_idx: usize) -> (r: String)
    requires
        num > 0,
        scale_idx + num_groups(num as nat) <= 7,
    ensures
        r@ == magnitude_words(num as nat, scale_idx as nat),
    decreases num,
{
    let group = num % 1000;
    let rest = num / 1000;

    if rest == 0 {
        get_chunk_words(group, scale_idx).unwrap()
    } else if group == 0 {
        magnitude_to_words(rest, scale_idx + 1)
    } else {
        let mut words = magnitude_to_words(rest, scale_idx + 1);
        words.append(" ");
        let chunk = get_chunk_words(group, scale_idx).unwrap();
        words.append(chunk.as_str());
        words
    }
}

/// A `u64` magnitude never needs more than seven base-1000 groups, so scale
/// position 6, quintillion, is the highest ever used.
proof fn lemma_num_groups_u64(m: nat)
    requires
        m <= u64::MAX,
    ensures
        num_groups(m) <= 7,
{
    let m1 = m / 1000;
    let m2 = m1 / 1000;
    let m3 = m2 / 1000;
    let m4 = m3 / 1000;
    let m5 = m4 / 1000;
    let m6 = m5 / 1000;
    assert(num_groups(m6 / 1000) == 0);
    assert(num_groups(m6) <= 1);
    assert(num_groups(m5) <= 2);
    assert(num_groups(m4) <= 3);
    assert(num_groups(m3) <= 4);
    assert(num_groups(m2) <= 5);
    assert(num_groups(m1) <= 6);
    assert(num_groups(m) <= 7);
}

/// Converts a given integer `number` to its cardinal string representation.
///
/// The result is `"zero"` for 0; otherwise the magnitude's base-1000 groups
/// are worded most-significant first, joined by single spaces with all-zero
/// groups skipped, and a negative number carries the prefix `"minus "`.
/// The whole `i64` range is supported: the magnitude is widened to `u64`
/// before negation, so the minimum representable value is handled too.
pub fn number_to_cardinal(number: i64) -> (r: String)
    ensures
        r@ == cardinal_words(number as int),
{
    if number == 0 {
        return "zero".to_owned();
    }

    let magnitude: u64 = if number < 0 {
        (-(number as i128)) as u64
    } else {
        number as u64
    };

    proof {
        lemma_num_groups_u64(magnitude as nat);
    }
    let words = magnitude_to_words(magnitude, 0);

    if number < 0 {
        let mut signed_words = "minus ".to_owned();
        signed_words.append(words.as_str());
        signed_words
    } else {
        words
    }
}

} // verus!
