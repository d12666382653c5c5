//! English cardinal-number words for 64-bit signed integers.
//!
//! [`number_to_cardinal`] turns any `i64` into its English cardinal word
//! form, e.g. `12345` into `"twelve thousand three hundred and forty-five"`.
//! The intended wording is written down as the spec function
//! [`cardinal::cardinal_words`], and the contract of [`number_to_cardinal`]
//! says that the returned text is exactly that sequence of characters.

pub mod cardinal;
pub mod laws;
pub mod words;

pub use cardinal::number_to_cardinal;
