use rust_numerals::number_to_cardinal;

#[test]
fn hundreds_omit_separator_on_zero_remainder() {
    assert_eq!(number_to_cardinal(100), "one hundred");
    assert_eq!(number_to_cardinal(200), "two hundred");
    assert_eq!(number_to_cardinal(900), "nine hundred");
}

#[test]
fn hundreds_use_and_before_nonzero_remainder() {
    assert_eq!(number_to_cardinal(105), "one hundred and five");
    assert_eq!(number_to_cardinal(110), "one hundred and ten");
    assert_eq!(number_to_cardinal(111), "one hundred and eleven");
    assert_eq!(number_to_cardinal(299), "two hundred and ninety-nine");
    assert_eq!(number_to_cardinal(320), "three hundred and twenty");
}

#[test]
fn zero_groups_are_skipped_silently() {
    assert_eq!(number_to_cardinal(1_000_001), "one million one");
    assert_eq!(number_to_cardinal(1_001_000_001), "one billion one million one");
    assert_eq!(number_to_cardinal(1_000_000_000_001), "one trillion one");
    assert_eq!(
        number_to_cardinal(1_000_000_100_000),
        "one trillion one hundred thousand"
    );
}

#[test]
fn no_separator_word_between_scale_groups() {
    assert_eq!(
        number_to_cardinal(1_061_044),
        "one million sixty-one thousand forty-four"
    );
    assert_eq!(
        number_to_cardinal(12_345),
        "twelve thousand three hundred and forty-five"
    );
}

#[test]
fn minus_is_a_single_prefix() {
    let samples: [i64; 7] = [1, 10, 21, 299, 1_001, 1_061_044, 9_223_372_036_854_775_807];
    for n in samples {
        let positive = number_to_cardinal(n);
        let negative = number_to_cardinal(-n);
        assert_eq!(negative, format!("minus {}", positive));
    }
}

#[test]
fn extreme_values_of_the_input_type() {
    assert_eq!(
        number_to_cardinal(i64::MAX),
        "nine quintillion two hundred and twenty-three quadrillion three hundred and \
         seventy-two trillion thirty-six billion eight hundred and fifty-four million \
         seven hundred and seventy-five thousand eight hundred and seven"
    );
    assert_eq!(
        number_to_cardinal(i64::MIN),
        "minus nine quintillion two hundred and twenty-three quadrillion three hundred and \
         seventy-two trillion thirty-six billion eight hundred and fifty-four million \
         seven hundred and seventy-five thousand eight hundred and eight"
    );
}

#[test]
fn boundaries_of_the_word_tables() {
    assert_eq!(number_to_cardinal(9), "nine");
    assert_eq!(number_to_cardinal(10), "ten");
    assert_eq!(number_to_cardinal(11), "eleven");
    assert_eq!(number_to_cardinal(19), "nineteen");
    assert_eq!(number_to_cardinal(20), "twenty");
    assert_eq!(number_to_cardinal(99), "ninety-nine");
    assert_eq!(number_to_cardinal(100), "one hundred");
    assert_eq!(number_to_cardinal(999), "nine hundred and ninety-nine");
    assert_eq!(number_to_cardinal(1_000), "one thousand");
}
