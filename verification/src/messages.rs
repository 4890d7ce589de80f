//! The text of each fault of option validation: it names the option and
//! says what the option accepts.

use crate::options::key_name;
use crate::options::OptionEntry;
use crate::options::OptionError;
use crate::options::OptionGroup;
use crate::options::OptionKey;
use vstd::prelude::*;
use vstd::string::*;

verus! {

/// What the option under `key` accepts in option sets of `group`, in words.
pub open spec fn accepted_values(group: OptionGroup, key: OptionKey) -> Seq<char> {
    match (group, key) {
        (OptionGroup::DateTime, OptionKey::DateStyle) | (OptionGroup::DateTime, OptionKey::TimeStyle) => ":full, :long, :medium, or :short"@,
        (OptionGroup::DateTime, OptionKey::Year) | (OptionGroup::DateTime, OptionKey::Day) | (OptionGroup::DateTime, OptionKey::Hour) | (OptionGroup::DateTime, OptionKey::Minute) | (OptionGroup::DateTime, OptionKey::Second) => ":numeric or :two_digit"@,
        (OptionGroup::DateTime, OptionKey::Month) => ":numeric, :two_digit, :long, :short, or :narrow"@,
        (OptionGroup::DateTime, OptionKey::Weekday) => ":long, :short, or :narrow"@,
        (OptionGroup::DateTime, OptionKey::Calendar) => ":gregory, :japanese, :buddhist, :chinese, :hebrew, :islamic, :persian, :indian, :ethiopian, :coptic, :roc, or :dangi"@,
        (OptionGroup::DateTime, OptionKey::HourCycle) => ":h11, :h12, or :h23"@,
        (OptionGroup::DateTime, OptionKey::TimeZone) => "the name of a time zone"@,
        (OptionGroup::Number, OptionKey::Style) => ":decimal, :percent, or :currency"@,
        (OptionGroup::Number, OptionKey::Currency) => "a valid 3-letter ISO 4217 code"@,
        (OptionGroup::Number, OptionKey::UseGrouping) => "true or false"@,
        (OptionGroup::Number, OptionKey::MinimumIntegerDigits) | (OptionGroup::Number, OptionKey::MinimumFractionDigits) | (OptionGroup::Number, OptionKey::MaximumFractionDigits) => "an integer"@,
        (OptionGroup::Number, OptionKey::RoundingMode) => ":ceil, :floor, :expand, :trunc, :half_ceil, :half_floor, :half_expand, :half_trunc, or :half_even"@,
        (OptionGroup::DisplayNames, OptionKey::Type) => ":language, :region, :script, or :locale"@,
        (OptionGroup::DisplayNames, OptionKey::Style) => ":long, :short, or :narrow"@,
        (OptionGroup::DisplayNames, OptionKey::Fallback) => ":code or :none"@,
        (OptionGroup::Segmenter, OptionKey::Granularity) => ":grapheme, :word, :sentence, or :line"@,
        (OptionGroup::Collator, OptionKey::Sensitivity) => ":base, :accent, :case, or :variant"@,
        (OptionGroup::Collator, OptionKey::Numeric) => "true or false"@,
        (OptionGroup::Collator, OptionKey::CaseFirst) => ":upper, :lower, or nil"@,
        (OptionGroup::List, OptionKey::Type) => ":conjunction, :disjunction, or :unit"@,
        (OptionGroup::List, OptionKey::Style) => ":long, :short, or :narrow"@,
        (OptionGroup::Duration, OptionKey::Style) => ":long, :short, :narrow, or :digital"@,
        (OptionGroup::RelativeTime, OptionKey::Style) => ":long, :short, or :narrow"@,
        (OptionGroup::RelativeTime, OptionKey::Numeric) => ":always or :auto"@,
        (OptionGroup::PluralRules, OptionKey::Type) => ":cardinal or :ordinal"@,
        _ => "a value that the key accepts"@,
    }
}

/// Says what the option under `key` accepts in option sets of `group`.
pub fn accepted_values_text(group: OptionGroup, key: OptionKey) -> (text: &'static str)
    ensures
        text@ == accepted_values(group, key),
{
    match (group, key) {
        (OptionGroup::DateTime, OptionKey::DateStyle) | (OptionGroup::DateTime, OptionKey::TimeStyle) => ":full, :long, :medium, or :short",
        (OptionGroup::DateTime, OptionKey::Year) | (OptionGroup::DateTime, OptionKey::Day) | (OptionGroup::DateTime, OptionKey::Hour) | (OptionGroup::DateTime, OptionKey::Minute) | (OptionGroup::DateTime, OptionKey::Second) => ":numeric or :two_digit",
        (OptionGroup::DateTime, OptionKey::Month) => ":numeric, :two_digit, :long, :short, or :narrow",
        (OptionGroup::DateTime, OptionKey::Weekday) => ":long, :short, or :narrow",
        (OptionGroup::DateTime, OptionKey::Calendar) => ":gregory, :japanese, :buddhist, :chinese, :hebrew, :islamic, :persian, :indian, :ethiopian, :coptic, :roc, or :dangi",
        (OptionGroup::DateTime, OptionKey::HourCycle) => ":h11, :h12, or :h23",
        (OptionGroup::DateTime, OptionKey::TimeZone) => "the name of a time zone",
        (OptionGroup::Number, OptionKey::Style) => ":decimal, :percent, or :currency",
        (OptionGroup::Number, OptionKey::Currency) => "a valid 3-letter ISO 4217 code",
        (OptionGroup::Number, OptionKey::UseGrouping) => "true or false",
        (OptionGroup::Number, OptionKey::MinimumIntegerDigits) | (OptionGroup::Number, OptionKey::MinimumFractionDigits) | (OptionGroup::Number, OptionKey::MaximumFractionDigits) => "an integer",
        (OptionGroup::Number, OptionKey::RoundingMode) => ":ceil, :floor, :expand, :trunc, :half_ceil, :half_floor, :half_expand, :half_trunc, or :half_even",
        (OptionGroup::DisplayNames, OptionKey::Type) => ":language, :region, :script, or :locale",
        (OptionGroup::DisplayNames, OptionKey::Style) => ":long, :short, or :narrow",
        (OptionGroup::DisplayNames, OptionKey::Fallback) => ":code or :none",
        (OptionGroup::Segmenter, OptionKey::Granularity) => ":grapheme, :word, :sentence, or :line",
        (OptionGroup::Collator, OptionKey::Sensitivity) => ":base, :accent, :case, or :variant",
        (OptionGroup::Collator, OptionKey::Numeric) => "true or false",
        (OptionGroup::Collator, OptionKey::CaseFirst) => ":upper, :lower, or nil",
        (OptionGroup::List, OptionKey::Type) => ":conjunction, :disjunction, or :unit",
        (OptionGroup::List, OptionKey::Style) => ":long, :short, or :narrow",
        (OptionGroup::Duration, OptionKey::Style) => ":long, :short, :narrow, or :digital",
        (OptionGroup::RelativeTime, OptionKey::Style) => ":long, :short, or :narrow",
        (OptionGroup::RelativeTime, OptionKey::Numeric) => ":always or :auto",
        (OptionGroup::PluralRules, OptionKey::Type) => ":cardinal or :ordinal",
        _ => "a value that the key accepts",
    }
}

/// The text of a fault of an option set of `group` with the entries
/// `entries`.
pub open spec fn error_message(error: OptionError, group: OptionGroup, entries: Seq<OptionEntry>)
    -> Seq<char> {
    match error {
        OptionError::UnknownKey(index) => if index < entries.len() {
            "unknown keyword: :"@ + entries[index as int].key@
        } else {
            "unknown keyword"@
        },
        OptionError::InvalidValue(key) => key_name(key) + " must be "@ + accepted_values(
            group,
            key,
        ),
        OptionError::Negative(key) => key_name(key) + " must be non-negative"@,
        OptionError::TooLarge(key) => key_name(key) + " is too large (max 32767)"@,
        OptionError::FractionRange =>
            "minimum_fraction_digits must not be greater than maximum_fraction_digits"@,
        OptionError::MissingKey(key) => "missing keyword: :"@ + key_name(key),
        OptionError::MissingCurrency => "currency is required when style is :currency"@,
        OptionError::StyleWithComponents =>
            "style and component options are mutually exclusive"@,
        OptionError::MissingStyle =>
            "at least one of date_style or time_style must be specified"@,
        OptionError::InvalidUnit =>
            "unit must be :second, :minute, :hour, :day, :week, :month, :quarter, or :year"@,
    }
}

/// Writes the text of a fault: it names the option at fault and says what
/// the option accepts.
pub fn describe(error: OptionError, group: OptionGroup, entries: &Vec<OptionEntry>) -> (message:
    String)
    ensures
        message@ == error_message(error, group, entries@),
{
    match error {
        OptionError::UnknownKey(index) => {
            if index < entries.len() {
                let mut message = String::from_str("unknown keyword: :");
                message.append(entries[index].key.as_str());
                message
            } else {
                String::from_str("unknown keyword")
            }
        },
        OptionError::InvalidValue(key) => {
            let mut message = String::from_str(key.name());
            message.append(" must be ");
            message.append(accepted_values_text(group, key));
            message
        },
        OptionError::Negative(key) => {
            let mut message = String::from_str(key.name());
            message.append(" must be non-negative");
            message
        },
        OptionError::TooLarge(key) => {
            let mut message = String::from_str(key.name());
            message.append(" is too large (max 32767)");
            message
        },
        OptionError::FractionRange => String::from_str(
            "minimum_fraction_digits must not be greater than maximum_fraction_digits",
        ),
        OptionError::MissingKey(key) => {
            let mut message = String::from_str("missing keyword: :");
            message.append(key.name());
            message
        },
        OptionError::MissingCurrency => String::from_str(
            "currency is required when style is :currency",
        ),
        OptionError::StyleWithComponents => String::from_str(
            "style and component options are mutually exclusive",
        ),
        OptionError::MissingStyle => String::from_str(
            "at least one of date_style or time_style must be specified",
        ),
        OptionError::InvalidUnit => String::from_str(
            "unit must be :second, :minute, :hour, :day, :week, :month, :quarter, or :year",
        ),
    }
}

} // verus!
