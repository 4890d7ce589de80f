use intl_format::messages::accepted_values_text;
use intl_format::messages::describe;
use intl_format::options::OptionEntry;
use intl_format::options::OptionError;
use intl_format::options::OptionGroup;
use intl_format::options::OptionKey;
use intl_format::options::OptionValue;

fn label(key: &str, value: &str) -> OptionEntry {
    OptionEntry { key: key.to_string(), value: OptionValue::Label(value.to_string()) }
}

#[test]
fn a_fault_in_a_value_names_the_key_and_what_it_accepts() {
    let none = Vec::new();
    assert_eq!(
        describe(OptionError::InvalidValue(OptionKey::Style), OptionGroup::Number, &none),
        "style must be :decimal, :percent, or :currency"
    );
    assert_eq!(
        describe(OptionError::InvalidValue(OptionKey::Style), OptionGroup::Duration, &none),
        "style must be :long, :short, :narrow, or :digital"
    );
    assert_eq!(
        describe(OptionError::InvalidValue(OptionKey::DateStyle), OptionGroup::DateTime, &none),
        "date_style must be :full, :long, :medium, or :short"
    );
    assert_eq!(
        describe(OptionError::InvalidValue(OptionKey::RoundingMode), OptionGroup::Number, &none),
        "rounding_mode must be :ceil, :floor, :expand, :trunc, :half_ceil, :half_floor, :half_expand, :half_trunc, or :half_even"
    );
    assert_eq!(
        describe(OptionError::InvalidValue(OptionKey::Calendar), OptionGroup::DateTime, &none),
        "calendar must be :gregory, :japanese, :buddhist, :chinese, :hebrew, :islamic, :persian, :indian, :ethiopian, :coptic, :roc, or :dangi"
    );
    assert_eq!(
        describe(OptionError::InvalidValue(OptionKey::CaseFirst), OptionGroup::Collator, &none),
        "case_first must be :upper, :lower, or nil"
    );
    assert_eq!(
        describe(OptionError::InvalidValue(OptionKey::Type), OptionGroup::PluralRules, &none),
        "type must be :cardinal or :ordinal"
    );
    assert_eq!(
        describe(OptionError::InvalidValue(OptionKey::Numeric), OptionGroup::RelativeTime, &none),
        "numeric must be :always or :auto"
    );
}

#[test]
fn a_fault_in_the_currency_or_the_time_zone_says_what_is_accepted() {
    let none = Vec::new();
    assert_eq!(
        describe(OptionError::InvalidValue(OptionKey::Currency), OptionGroup::Number, &none),
        "currency must be a valid 3-letter ISO 4217 code"
    );
    assert_eq!(
        describe(OptionError::InvalidValue(OptionKey::TimeZone), OptionGroup::DateTime, &none),
        "time_zone must be the name of a time zone"
    );
    assert_eq!(
        describe(OptionError::InvalidValue(OptionKey::HourCycle), OptionGroup::DateTime, &none),
        "hour_cycle must be :h11, :h12, or :h23"
    );
}

#[test]
fn a_fault_in_a_count_names_the_key_and_the_range() {
    let none = Vec::new();
    assert_eq!(
        describe(OptionError::Negative(OptionKey::MinimumFractionDigits), OptionGroup::Number, &none),
        "minimum_fraction_digits must be non-negative"
    );
    assert_eq!(
        describe(OptionError::TooLarge(OptionKey::MaximumFractionDigits), OptionGroup::Number, &none),
        "maximum_fraction_digits is too large (max 32767)"
    );
    assert_eq!(
        describe(OptionError::FractionRange, OptionGroup::Number, &none),
        "minimum_fraction_digits must not be greater than maximum_fraction_digits"
    );
}

#[test]
fn an_unknown_key_is_named() {
    let entries = vec![label("year", "numeric"), label("colour", "red")];
    assert_eq!(
        describe(OptionError::UnknownKey(1), OptionGroup::DateTime, &entries),
        "unknown keyword: :colour"
    );
    assert_eq!(
        describe(OptionError::UnknownKey(2), OptionGroup::DateTime, &entries),
        "unknown keyword"
    );
}

#[test]
fn the_other_faults_have_fixed_texts() {
    let none = Vec::new();
    assert_eq!(
        describe(OptionError::MissingKey(OptionKey::Granularity), OptionGroup::Segmenter, &none),
        "missing keyword: :granularity"
    );
    assert_eq!(
        describe(OptionError::MissingCurrency, OptionGroup::Number, &none),
        "currency is required when style is :currency"
    );
    assert_eq!(
        describe(OptionError::StyleWithComponents, OptionGroup::DateTime, &none),
        "style and component options are mutually exclusive"
    );
    assert_eq!(
        describe(OptionError::MissingStyle, OptionGroup::DateTime, &none),
        "at least one of date_style or time_style must be specified"
    );
    assert_eq!(
        describe(OptionError::InvalidUnit, OptionGroup::RelativeTime, &none),
        "unit must be :second, :minute, :hour, :day, :week, :month, :quarter, or :year"
    );
}

#[test]
fn accepted_values_depend_on_the_group() {
    assert_eq!(accepted_values_text(OptionGroup::List, OptionKey::Type), ":conjunction, :disjunction, or :unit");
    assert_eq!(
        accepted_values_text(OptionGroup::DisplayNames, OptionKey::Type),
        ":language, :region, :script, or :locale"
    );
    assert_eq!(accepted_values_text(OptionGroup::Collator, OptionKey::Numeric), "true or false");
    assert_eq!(accepted_values_text(OptionGroup::DateTime, OptionKey::Weekday), ":long, :short, or :narrow");
    assert_eq!(accepted_values_text(OptionGroup::List, OptionKey::Year), "a value that the key accepts");
}
