//! Word tables for English cardinal numbers: single digits, teens, multiples
//! of ten, and the short-scale names for powers of one thousand.

use vstd::prelude::*;

verus! {

/// The word for a single digit `d` in [1, 9].
pub open spec fn ones_word(d: int) -> Seq<char> {
    if d == 1 {
        "one"@
    } else if d == 2 {
        "two"@
    } else if d == 3 {
        "three"@
    } else if d == 4 {
        "four"@
    } else if d == 5 {
        "five"@
    } else if d == 6 {
        "six"@
    } else if d == 7 {
        "seven"@
    } else if d == 8 {
        "eight"@
    } else if d == 9 {
        "nine"@
    } else {
        Seq::empty()
    }
}

/// The word for a number `n` in [11, 19].
pub open spec fn teens_word(n: int) -> Seq<char> {
    if n == 11 {
        "eleven"@
    } else if n == 12 {
        "twelve"@
    } else if n == 13 {
        "thirteen"@
    } else if n == 14 {
        "fourteen"@
    } else if n == 15 {
        "fifteen"@
    } else if n == 16 {
        "sixteen"@
    } else if n == 17 {
        "seventeen"@
    } else if n == 18 {
        "eighteen"@
    } else if n == 19 {
        "nineteen"@
    } else {
        Seq::empty()
    }
}

/// The word for ten times `t`, with `t` in [1, 9].
pub open spec fn tens_word(t: int) -> Seq<char> {
    if t == 1 {
        "ten"@
    } else if t == 2 {
        "twenty"@
    } else if t == 3 {
        "thirty"@
    } else if t == 4 {
        "forty"@
    } else if t == 5 {
        "fifty"@
    } else if t == 6 {
        "sixty"@
    } else if t == 7 {
        "seventy"@
    } else if t == 8 {
        "eighty"@
    } else if t == 9 {
        "ninety"@
    } else {
        Seq::empty()
    }
}

/// The short-scale name for one thousand to the power `i`, with `i` in
/// [1, 6]. Index 6, quintillion, is the highest scale a 64-bit signed
/// magnitude can reach, so the table ends there.
pub open spec fn scale_word(i: int) -> Seq<char> {
    if i == 1 {
        "thousand"@
    } else if i == 2 {
        "million"@
    } else if i == 3 {
        "billion"@
    } else if i == 4 {
        "trillion"@
    } else if i == 5 {
        "quadrillion"@
    } else if i == 6 {
        "quintillion"@
    } else {
        Seq::empty()
    }
}

/// Looks the word for a single digit up.
pub(crate) fn ones_str(d: u64) -> (r: &'static str)
    requires
        1 <= d <= 9,
    ensures
        r@ == ones_word(d as int),
{
    match d {
        1 => "one",
        2 => "two",
        3 => "three",
        4 => "four",
        5 => "five",
        6 => "six",
        7 => "seven",
        8 => "eight",
        _ => "nine",
    }
}

/// Looks the word for a teen up.
pub(crate) fn teens_str(n: u64) -> (r: &'static str)
    requires
        11 <= n <= 19,
    ensures
        r@ == teens_word(n as int),
{
    match n {
        11 => "eleven",
        12 => "twelve",
        13 => "thirteen",
        14 => "fourteen",
        15 => "fifteen",
        16 => "sixteen",
        17 => "seventeen",
        18 => "eighteen",
        _ => "nineteen",
    }
}

/// Looks the word for a multiple of ten up.
pub(crate) fn tens_str(t: u64) -> (r: &'static str)
    requires
        1 <= t <= 9,
    ensures
        r@ == tens_word(t as int),
{
    match t {
        1 => "ten",
        2 => "twenty",
        3 => "thirty",
        4 => "forty",
        5 => "fifty",
        6 => "sixty",
        7 => "seventy",
        8 => "eighty",
        _ => "ninety",
    }
}

/// Looks a scale name up.
pub(crate) fn scale_str(i: usize) -> (r: &'static str)
    requires
        1 <= i <= 6,
    ensures
        r@ == scale_word(i as int),
{
    match i {
        1 => "thousand",
        2 => "million",
        3 => "billion",
        4 => "trillion",
        5 => "quadrillion",
        _ => "quintillion",
    }
}

} // verus!
