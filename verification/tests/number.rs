use fixed_decimal::Decimal;
use intl_format::number::check_digit_count;
use intl_format::number::format_integer;
use intl_format::number::format_text;
use intl_format::number::is_currency_code;
use intl_format::number::prepare_integer;
use intl_format::number::prepare_text;
use intl_format::number::render_decimal;
use intl_format::number::resolve_number;
use intl_format::number::DigitOptions;
use intl_format::number::NumberStyle;
use intl_format::options::Labelled;
use intl_format::options::OptionEntry;
use intl_format::options::OptionError;
use intl_format::options::OptionKey;
use intl_format::options::OptionValue;
use intl_format::rounding::RoundingMode;

fn digits(
    min_int: Option<i64>,
    min_frac: Option<i64>,
    max_frac: Option<i64>,
    mode: RoundingMode,
) -> DigitOptions {
    DigitOptions::new(min_int, min_frac, max_frac, mode).unwrap()
}

fn label(key: &str, value: &str) -> OptionEntry {
    OptionEntry { key: key.to_string(), value: OptionValue::Label(value.to_string()) }
}

fn count(key: &str, value: i64) -> OptionEntry {
    OptionEntry { key: key.to_string(), value: OptionValue::Count(value) }
}

fn flag(key: &str, value: bool) -> OptionEntry {
    OptionEntry { key: key.to_string(), value: OptionValue::Flag(value) }
}

#[test]
fn maximum_fraction_rounds_half_expand() {
    let options = digits(None, None, Some(2), RoundingMode::HalfExpand);
    assert_eq!(format_text("3.14159", &options, false), Some("3.14".to_string()));
    assert_eq!(format_text("5.455", &options, false), Some("5.46".to_string()));
}

#[test]
fn maximum_fraction_rounds_half_to_even() {
    let options = digits(None, None, Some(2), RoundingMode::HalfEven);
    assert_eq!(format_text("0.125", &options, false), Some("0.12".to_string()));
    assert_eq!(format_text("0.135", &options, false), Some("0.14".to_string()));
}

#[test]
fn minimum_fraction_pads_with_trailing_zeros() {
    let options = digits(None, Some(2), None, RoundingMode::HalfExpand);
    assert_eq!(format_integer(5, &options, false), "5.00");
    assert_eq!(format_text("5", &options, false), Some("5.00".to_string()));
}

#[test]
fn minimum_integer_pads_with_leading_zeros() {
    let options = digits(Some(3), None, None, RoundingMode::HalfExpand);
    assert_eq!(format_integer(5, &options, false), "005");
    assert_eq!(format_integer(-5, &options, false), "-005");
    assert_eq!(format_integer(12345, &options, false), "12345");
}

#[test]
fn percentage_scales_by_one_hundred_before_anything_else() {
    let none = digits(None, None, None, RoundingMode::HalfExpand);
    let text = format_text("0.5", &none, true).unwrap();
    assert!(text.starts_with("50"));
    assert_eq!(text, "50");
    assert_eq!(format_text("0.125", &none, true), Some("12.5".to_string()));
    assert_eq!(format_integer(3, &none, true), "300");
    let rounded = digits(None, None, Some(0), RoundingMode::HalfExpand);
    assert_eq!(format_text("0.1256", &rounded, true), Some("13".to_string()));
}

#[test]
fn rounding_comes_before_padding() {
    let options = digits(Some(3), Some(1), Some(3), RoundingMode::Floor);
    assert_eq!(format_text("1.23456", &options, false), Some("001.234".to_string()));
    let both = digits(None, Some(2), Some(2), RoundingMode::Trunc);
    assert_eq!(format_text("7.1", &both, false), Some("7.10".to_string()));
}

#[test]
fn padding_never_removes_digits_of_the_value() {
    let options = digits(Some(1), Some(1), None, RoundingMode::HalfExpand);
    assert_eq!(format_text("123.456", &options, false), Some("123.456".to_string()));
}

#[test]
fn each_rounding_mode_breaks_ties_its_own_way() {
    let cases = [
        (RoundingMode::Ceil, "1.5", "2", "-1.5", "-1"),
        (RoundingMode::Floor, "1.5", "1", "-1.5", "-2"),
        (RoundingMode::Expand, "1.2", "2", "-1.2", "-2"),
        (RoundingMode::Trunc, "1.8", "1", "-1.8", "-1"),
        (RoundingMode::HalfCeil, "1.5", "2", "-1.5", "-1"),
        (RoundingMode::HalfFloor, "1.5", "1", "-1.5", "-2"),
        (RoundingMode::HalfExpand, "1.5", "2", "-1.5", "-2"),
        (RoundingMode::HalfTrunc, "1.5", "1", "-1.5", "-1"),
        (RoundingMode::HalfEven, "2.5", "2", "-3.5", "-4"),
    ];
    for (mode, positive, up, negative, down) in cases {
        let options = digits(None, None, Some(0), mode);
        assert_eq!(format_text(positive, &options, false), Some(up.to_string()));
        assert_eq!(format_text(negative, &options, false), Some(down.to_string()));
    }
}

#[test]
fn text_that_is_no_decimal_gives_nothing() {
    let none = digits(None, None, None, RoundingMode::HalfExpand);
    assert_eq!(format_text("", &none, false), None);
    assert_eq!(format_text("abc", &none, false), None);
    assert_eq!(format_text("-", &none, false), None);
    assert_eq!(format_text("1.2.3", &none, false), None);
    assert!(prepare_text("1,5", &none, false).is_none());
}

#[test]
fn integers_become_their_base_ten_digits() {
    let none = digits(None, None, None, RoundingMode::HalfExpand);
    assert_eq!(format_integer(0, &none, false), "0");
    assert_eq!(format_integer(250, &none, false), "250");
    assert_eq!(format_integer(-42, &none, false), "-42");
    assert_eq!(format_integer(i64::MIN, &none, false), "-9223372036854775808");
    assert_eq!(format_integer(0, &none, true), "0");
}

#[test]
fn prepared_values_are_decimals_of_the_engine() {
    let options = digits(None, Some(1), None, RoundingMode::HalfExpand);
    let value: Decimal = prepare_integer(7, &options, false);
    assert_eq!(value.to_string(), "7.0");
    assert_eq!(render_decimal(&Decimal::try_from_str("-0.50").unwrap()), "-0.50");
    assert_eq!(render_decimal(&Decimal::try_from_str("+12").unwrap()), "+12");
}

#[test]
fn digit_counts_are_checked_against_their_range() {
    let key = OptionKey::MinimumIntegerDigits;
    assert_eq!(check_digit_count(key, None), Ok(None));
    assert_eq!(check_digit_count(key, Some(0)), Ok(Some(0)));
    assert_eq!(check_digit_count(key, Some(32767)), Ok(Some(32767)));
    assert_eq!(check_digit_count(key, Some(32768)), Err(OptionError::TooLarge(key)));
    assert_eq!(check_digit_count(key, Some(-1)), Err(OptionError::Negative(key)));
}

#[test]
fn minimum_fraction_above_maximum_is_refused() {
    assert_eq!(
        DigitOptions::new(None, Some(3), Some(2), RoundingMode::HalfExpand),
        Err(OptionError::FractionRange)
    );
    assert!(DigitOptions::new(None, Some(2), Some(2), RoundingMode::HalfExpand).is_ok());
    assert_eq!(
        DigitOptions::new(Some(-1), Some(3), Some(2), RoundingMode::HalfExpand),
        Err(OptionError::Negative(OptionKey::MinimumIntegerDigits))
    );
    assert_eq!(
        DigitOptions::new(None, None, Some(40000), RoundingMode::HalfExpand),
        Err(OptionError::TooLarge(OptionKey::MaximumFractionDigits))
    );
}

#[test]
fn empty_number_option_set_gives_the_defaults() {
    let descriptor = resolve_number(&Vec::new()).unwrap();
    assert_eq!(descriptor.style, NumberStyle::Decimal);
    assert!(descriptor.use_grouping);
    assert_eq!(descriptor.currency, None);
    assert_eq!(descriptor.digits.rounding_mode, RoundingMode::HalfExpand);
    assert_eq!(descriptor.digits.maximum_fraction_digits, None);
    assert_eq!(descriptor.resolved_rounding_mode(), None);
}

#[test]
fn number_option_set_resolves_field_by_field() {
    let entries = vec![
        label("style", "percent"),
        flag("use_grouping", false),
        count("minimum_integer_digits", 2),
        count("minimum_fraction_digits", 1),
        count("maximum_fraction_digits", 3),
        label("rounding_mode", "half_even"),
    ];
    let descriptor = resolve_number(&entries).unwrap();
    assert_eq!(descriptor.style, NumberStyle::Percent);
    assert!(!descriptor.use_grouping);
    assert_eq!(descriptor.digits.minimum_integer_digits, Some(2));
    assert_eq!(descriptor.digits.minimum_fraction_digits, Some(1));
    assert_eq!(descriptor.digits.maximum_fraction_digits, Some(3));
    assert_eq!(descriptor.resolved_rounding_mode(), Some(RoundingMode::HalfEven));
    let mut value = Decimal::try_from_str("0.07").unwrap();
    descriptor.prepare(&mut value);
    assert_eq!(render_decimal(&value), "07.000");
    assert_eq!(resolve_number(&entries), resolve_number(&entries));
}

#[test]
fn currency_style_needs_a_currency() {
    assert_eq!(resolve_number(&vec![label("style", "currency")]), Err(OptionError::MissingCurrency));
    let descriptor =
        resolve_number(&vec![label("style", "currency"), label("currency", "JPY")]).unwrap();
    assert_eq!(descriptor.style, NumberStyle::Currency);
    assert_eq!(descriptor.currency, Some("JPY".to_string()));
}

#[test]
fn number_option_faults_name_their_key() {
    assert_eq!(
        resolve_number(&vec![label("style", "scientific")]),
        Err(OptionError::InvalidValue(OptionKey::Style))
    );
    assert_eq!(
        resolve_number(&vec![label("rounding_mode", "nearest")]),
        Err(OptionError::InvalidValue(OptionKey::RoundingMode))
    );
    assert_eq!(
        resolve_number(&vec![count("minimum_fraction_digits", -2)]),
        Err(OptionError::Negative(OptionKey::MinimumFractionDigits))
    );
    assert_eq!(
        resolve_number(&vec![count("maximum_fraction_digits", 100000)]),
        Err(OptionError::TooLarge(OptionKey::MaximumFractionDigits))
    );
    assert_eq!(
        resolve_number(&vec![label("use_grouping", "yes")]),
        Err(OptionError::InvalidValue(OptionKey::UseGrouping))
    );
    assert_eq!(
        resolve_number(&vec![count("minimum_fraction_digits", 4), count("maximum_fraction_digits", 1)]),
        Err(OptionError::FractionRange)
    );
    assert_eq!(resolve_number(&vec![label("date_style", "long")]), Err(OptionError::UnknownKey(0)));
}

#[test]
fn rounding_mode_labels_round_trip() {
    let modes = [
        (RoundingMode::Ceil, "ceil"),
        (RoundingMode::Floor, "floor"),
        (RoundingMode::Expand, "expand"),
        (RoundingMode::Trunc, "trunc"),
        (RoundingMode::HalfCeil, "half_ceil"),
        (RoundingMode::HalfFloor, "half_floor"),
        (RoundingMode::HalfExpand, "half_expand"),
        (RoundingMode::HalfTrunc, "half_trunc"),
        (RoundingMode::HalfEven, "half_even"),
    ];
    for (mode, name) in modes {
        assert_eq!(mode.to_symbol_name(), name);
        assert_eq!(RoundingMode::from_label(name), Some(mode));
    }
    assert_eq!(RoundingMode::from_label("HalfEven"), None);
    assert_eq!(RoundingMode::default(), RoundingMode::HalfExpand);
}

#[test]
fn integer_padding_only_adds_leading_zeros() {
    let three = digits(Some(3), None, None, RoundingMode::HalfExpand);
    assert_eq!(format_text("12", &three, false), Some("012".to_string()));
    assert_eq!(format_text("0012", &three, false), Some("0012".to_string()));
    assert_eq!(format_text("0.05", &three, false), Some("000.05".to_string()));
    assert_eq!(format_text("000", &three, false), Some("000".to_string()));
    assert_eq!(format_text("0000", &three, false), Some("0000".to_string()));
    let zero = digits(Some(0), None, None, RoundingMode::HalfExpand);
    assert_eq!(format_text("0012", &zero, false), Some("0012".to_string()));
    let one = digits(Some(1), None, None, RoundingMode::HalfExpand);
    assert_eq!(format_text("000", &one, false), Some("000".to_string()));
    assert_eq!(format_text("0012.0", &one, false), Some("0012.0".to_string()));
}

#[test]
fn fraction_padding_only_adds_trailing_zeros() {
    let two = digits(None, Some(2), None, RoundingMode::HalfExpand);
    assert_eq!(format_text("3.14159", &two, false), Some("3.14159".to_string()));
    assert_eq!(format_text("5.000", &two, false), Some("5.000".to_string()));
    assert_eq!(format_text("5.125", &two, false), Some("5.125".to_string()));
    assert_eq!(format_text("5.1", &two, false), Some("5.10".to_string()));
    assert_eq!(format_text("500", &two, false), Some("500.00".to_string()));
    assert_eq!(format_text("0.000", &two, false), Some("0.000".to_string()));
    assert_eq!(format_text("0", &two, false), Some("0.00".to_string()));
    let zero = digits(None, Some(0), None, RoundingMode::HalfExpand);
    assert_eq!(format_text("5.000", &zero, false), Some("5.000".to_string()));
    assert_eq!(format_text("5.100", &zero, false), Some("5.100".to_string()));
}

#[test]
fn both_minimums_give_the_larger_of_old_and_asked_counts() {
    let options = digits(Some(4), Some(3), None, RoundingMode::HalfExpand);
    assert_eq!(format_text("12.5", &options, false), Some("0012.500".to_string()));
    assert_eq!(format_text("12345.6789", &options, false), Some("12345.6789".to_string()));
    assert_eq!(format_text("-1.25", &options, false), Some("-0001.250".to_string()));
}

#[test]
fn percentage_drops_the_leading_zeros_that_scaling_leaves() {
    let none = digits(None, None, None, RoundingMode::HalfExpand);
    assert_eq!(format_text("0.005", &none, true), Some("0.5".to_string()));
    assert_eq!(format_text("0.05", &none, true), Some("5".to_string()));
    assert_eq!(format_text("1.5", &none, true), Some("150".to_string()));
    assert_eq!(format_text("-0.25", &none, true), Some("-25".to_string()));
    assert_eq!(format_text("0012.345", &none, true), Some("1234.5".to_string()));
    assert_eq!(format_text("0.00", &none, true), Some("0".to_string()));
}

#[test]
fn digit_options_know_whether_they_are_valid() {
    assert!(digits(Some(1), Some(2), Some(3), RoundingMode::Floor).is_valid());
    let negative = DigitOptions {
        minimum_integer_digits: Some(-1),
        minimum_fraction_digits: None,
        maximum_fraction_digits: None,
        rounding_mode: RoundingMode::Floor,
    };
    assert!(!negative.is_valid());
    let crossed = DigitOptions {
        minimum_integer_digits: None,
        minimum_fraction_digits: Some(3),
        maximum_fraction_digits: Some(1),
        rounding_mode: RoundingMode::Floor,
    };
    assert!(!crossed.is_valid());
}

#[test]
fn number_style_labels_round_trip() {
    for (style, name) in [
        (NumberStyle::Decimal, "decimal"),
        (NumberStyle::Percent, "percent"),
        (NumberStyle::Currency, "currency"),
    ] {
        assert_eq!(style.to_symbol_name(), name);
        assert_eq!(NumberStyle::from_label(name), Some(style));
    }
    assert_eq!(NumberStyle::from_label("compact"), None);
}

#[test]
fn a_currency_must_have_the_form_of_a_code() {
    for code in ["", "JP", "J1Y", "EURO", "US$", "\u{a5}\u{a5}\u{a5}", "eu r"] {
        assert!(!is_currency_code(code));
        assert_eq!(
            resolve_number(&vec![label("style", "currency"), label("currency", code)]),
            Err(OptionError::InvalidValue(OptionKey::Currency))
        );
    }
    for code in ["USD", "jpy", "Eur"] {
        assert!(is_currency_code(code));
        let descriptor =
            resolve_number(&vec![label("style", "currency"), label("currency", code)]).unwrap();
        assert_eq!(descriptor.currency, Some(code.to_string()));
    }
}

#[test]
fn a_currency_beside_another_style_is_kept_as_it_stands() {
    let descriptor =
        resolve_number(&vec![label("style", "decimal"), label("currency", "anything")]).unwrap();
    assert_eq!(descriptor.style, NumberStyle::Decimal);
    assert_eq!(descriptor.currency, Some("anything".to_string()));
    assert_eq!(
        resolve_number(&vec![label("style", "currency"), count("currency", 3)]),
        Err(OptionError::InvalidValue(OptionKey::Currency))
    );
}

#[test]
fn a_fault_in_the_rounding_mode_comes_before_one_in_the_currency_code() {
    let entries = vec![
        label("style", "currency"),
        label("currency", "dollars"),
        label("rounding_mode", "nearest"),
    ];
    assert_eq!(resolve_number(&entries), Err(OptionError::InvalidValue(OptionKey::RoundingMode)));
    let range = vec![
        label("style", "currency"),
        label("currency", "dollars"),
        count("minimum_fraction_digits", 4),
        count("maximum_fraction_digits", 1),
    ];
    assert_eq!(resolve_number(&range), Err(OptionError::InvalidValue(OptionKey::Currency)));
}

#[test]
fn checked_counts_combine_to_digit_options() {
    assert_eq!(
        DigitOptions::combine(Some(1), Some(3), Some(2), RoundingMode::Ceil),
        Err(OptionError::FractionRange)
    );
    let options = DigitOptions::combine(Some(1), Some(2), Some(3), RoundingMode::Ceil).unwrap();
    assert_eq!(options.minimum_integer_digits, Some(1));
    assert_eq!(options.minimum_fraction_digits, Some(2));
    assert_eq!(options.maximum_fraction_digits, Some(3));
    assert_eq!(options.rounding_mode, RoundingMode::Ceil);
    assert!(options.is_valid());
}
