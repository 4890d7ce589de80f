//! The digit and rounding pipeline: digit-count limits and a rounding mode,
//! validated once and then applied to each value in a fixed order.

use crate::decimal::decimal_from_i64;
use crate::decimal::decimal_from_str;
use crate::decimal::decimal_magnitude_range;
use crate::decimal::decimal_multiply_pow10;
use crate::decimal::decimal_pad_end;
use crate::decimal::decimal_pad_start;
use crate::decimal::decimal_round_with_mode;
use crate::decimal::decimal_text;
use crate::decimal::decimal_to_string;
use crate::decimal::decimal_trim_start;
use crate::decimal::larger;
use crate::decimal::law_extended_end;
use crate::decimal::law_extended_start;
use crate::decimal::law_shifted_up;
use crate::decimal::law_trimmed_start;
use crate::decimal::lemma_fraction_digits_extend;
use crate::decimal::lemma_integer_digits_extend;
use crate::decimal::model_of;
use crate::decimal::parsed_decimal;
use crate::decimal::rounded_decimal;
use crate::decimal::zeros;
use crate::decimal::DecimalModel;
use crate::options::count_of;
use crate::options::find_unknown;
use crate::options::first_unknown;
use crate::options::flag_of;
use crate::options::get_count;
use crate::options::get_flag;
use crate::options::get_label;
use crate::options::label_of;
use crate::options::lemma_same_lookup;
use crate::options::lemma_same_unknown;
use crate::options::same_entries;
use crate::options::text_eq;
use crate::options::Labelled;
use crate::options::OptionEntry;
use crate::options::OptionGroup;
use crate::options::OptionError;
use crate::options::OptionKey;
use crate::rounding::rounding_mode_label_value;
use crate::rounding::RoundingMode;
use fixed_decimal::Decimal;
use vstd::prelude::*;
use vstd::string::*;

verus! {

/// The largest digit count that is accepted.
pub const MAX_DIGIT_COUNT: i64 = 32767;

/// What kind of number is formatted.
#[derive(Clone, Copy, PartialEq, Eq, Structural, Debug)]
pub enum NumberStyle {
    Decimal,
    Percent,
    Currency,
}

/// The label of each number style.
pub open spec fn number_style_label(style: NumberStyle) -> Seq<char> {
    match style {
        NumberStyle::Decimal => "decimal"@,
        NumberStyle::Percent => "percent"@,
        NumberStyle::Currency => "currency"@,
    }
}

/// The number style that a label names, if any: the first whose label it is.
pub open spec fn number_style_label_value(label: Seq<char>) -> Option<NumberStyle> {
    if label == "decimal"@ {
        Some(NumberStyle::Decimal)
    } else if label == "percent"@ {
        Some(NumberStyle::Percent)
    } else if label == "currency"@ {
        Some(NumberStyle::Currency)
    } else {
        None
    }
}

/// The labels are a two-way table: each number style is the one that its own
/// label names.
pub proof fn law_number_style_labels(value: NumberStyle)
    ensures
        number_style_label_value(number_style_label(value)) == Some(value),
{
    reveal_strlit("decimal");
    reveal_strlit("percent");
    reveal_strlit("currency");
    assert("decimal"@.len() == 7 && "percent"@.len() == 7 && "currency"@.len() == 8);
    assert("decimal"@[0] == 'd' && "percent"@[0] == 'p');
}

impl NumberStyle {
    /// The label that names this style.
    pub fn to_symbol_name(self) -> (label: &'static str)
        ensures
            label@ == number_style_label(self),
    {
        match self {
            NumberStyle::Decimal => "decimal",
            NumberStyle::Percent => "percent",
            NumberStyle::Currency => "currency",
        }
    }
}

impl Labelled for NumberStyle {
    open spec fn label_value(label: Seq<char>) -> Option<NumberStyle> {
        number_style_label_value(label)
    }

    fn from_label(label: &str) -> (style: Option<NumberStyle>) {
        if text_eq(label, "decimal") {
            Some(NumberStyle::Decimal)
        } else if text_eq(label, "percent") {
            Some(NumberStyle::Percent)
        } else if text_eq(label, "currency") {
            Some(NumberStyle::Currency)
        } else {
            None
        }
    }
}

/// The outcome of checking one digit count.
pub open spec fn digit_count_checked(key: OptionKey, value: Option<i64>) -> Result<
    Option<i16>,
    OptionError,
> {
    match value {
        None => Ok(None),
        Some(v) => if v < 0 {
            Err(OptionError::Negative(key))
        } else if v > MAX_DIGIT_COUNT {
            Err(OptionError::TooLarge(key))
        } else {
            Ok(Some(v as i16))
        },
    }
}

/// Checks a digit count given under `key`: a count is refused if it is
/// negative or above the largest count accepted.
pub fn check_digit_count(key: OptionKey, value: Option<i64>) -> (checked: Result<
    Option<i16>,
    OptionError,
>)
    ensures
        checked == digit_count_checked(key, value),
{
    match value {
        None => Ok(None),
        Some(v) => {
            if v < 0 {
                Err(OptionError::Negative(key))
            } else if v > MAX_DIGIT_COUNT {
                Err(OptionError::TooLarge(key))
            } else {
                Ok(Some(v as i16))
            }
        },
    }
}

/// Digit-count limits and the rounding mode that goes with them.
#[derive(Clone, Copy, PartialEq, Eq, Structural, Debug)]
pub struct DigitOptions {
    pub minimum_integer_digits: Option<i16>,
    pub minimum_fraction_digits: Option<i16>,
    pub maximum_fraction_digits: Option<i16>,
    pub rounding_mode: RoundingMode,
}

/// A count that is absent or not negative.
pub open spec fn count_ok(count: Option<i16>) -> bool {
    count matches Some(v) ==> v >= 0
}

/// The digit options made of three checked counts: a fault where the
/// minimum of fraction digits is above the maximum.
pub open spec fn counts_combined(
    minimum_integer_digits: Option<i16>,
    minimum_fraction_digits: Option<i16>,
    maximum_fraction_digits: Option<i16>,
    rounding_mode: RoundingMode,
) -> Result<DigitOptions, OptionError> {
    if minimum_fraction_digits is Some && maximum_fraction_digits is Some
        && minimum_fraction_digits->0 > maximum_fraction_digits->0 {
        Err(OptionError::FractionRange)
    } else {
        Ok(
            DigitOptions {
                minimum_integer_digits: minimum_integer_digits,
                minimum_fraction_digits: minimum_fraction_digits,
                maximum_fraction_digits: maximum_fraction_digits,
                rounding_mode: rounding_mode,
            },
        )
    }
}

/// The outcome of validating three digit counts together.
pub open spec fn digit_options_checked(
    minimum_integer_digits: Option<i64>,
    minimum_fraction_digits: Option<i64>,
    maximum_fraction_digits: Option<i64>,
    rounding_mode: RoundingMode,
) -> Result<DigitOptions, OptionError> {
    match digit_count_checked(OptionKey::MinimumIntegerDigits, minimum_integer_digits) {
        Err(e) => Err(e),
        Ok(min_int) => match digit_count_checked(
            OptionKey::MinimumFractionDigits,
            minimum_fraction_digits,
        ) {
            Err(e) => Err(e),
            Ok(min_frac) => match digit_count_checked(
                OptionKey::MaximumFractionDigits,
                maximum_fraction_digits,
            ) {
                Err(e) => Err(e),
                Ok(max_frac) => counts_combined(min_int, min_frac, max_frac, rounding_mode),
            },
        },
    }
}

impl DigitOptions {
    /// No count is negative, and the minimum of fraction digits is not above
    /// the maximum.
    pub open spec fn wf(self) -> bool {
        &&& count_ok(self.minimum_integer_digits)
        &&& count_ok(self.minimum_fraction_digits)
        &&& count_ok(self.maximum_fraction_digits)
        &&& (self.minimum_fraction_digits is Some && self.maximum_fraction_digits is Some
            ==> self.minimum_fraction_digits->0 <= self.maximum_fraction_digits->0)
    }

    /// The first step of the pipeline: for a percentage the value times one
    /// hundred, without the leading zeros that the scaling left.
    pub open spec fn scaled(value: DecimalModel, percent: bool) -> DecimalModel {
        if percent {
            value.shifted_up(2).trimmed_start()
        } else {
            value
        }
    }

    /// The second step: the value rounded to the maximum of fraction digits,
    /// where one is set.
    pub open spec fn rounded(self, value: DecimalModel) -> DecimalModel {
        match self.maximum_fraction_digits {
            Some(max) => rounded_decimal(value, -max, self.rounding_mode),
            None => value,
        }
    }

    /// The last steps: the value padded with zeros at the back up to the
    /// minimum of fraction digits and then with zeros at the front up to
    /// the minimum of integer digits, where they are set. Padding only adds
    /// digits.
    pub open spec fn padded(self, value: DecimalModel) -> DecimalModel {
        let with_fraction = match self.minimum_fraction_digits {
            Some(min) => value.extended_end(min as int),
            None => value,
        };
        match self.minimum_integer_digits {
            Some(min) => with_fraction.extended_start(min as int),
            None => with_fraction,
        }
    }

    /// What the pipeline makes of a value: scaling, then rounding, then
    /// padding.
    pub open spec fn applied(self, value: DecimalModel, percent: bool) -> DecimalModel {
        self.padded(self.rounded(DigitOptions::scaled(value, percent)))
    }

    /// Says whether these options are valid: no count negative, and the
    /// minimum of fraction digits not above the maximum.
    pub fn is_valid(&self) -> (valid: bool)
        ensures
            valid == self.wf(),
    {
        let min_int_ok = match self.minimum_integer_digits {
            Some(v) => v >= 0,
            None => true,
        };
        let min_frac_ok = match self.minimum_fraction_digits {
            Some(v) => v >= 0,
            None => true,
        };
        let max_frac_ok = match self.maximum_fraction_digits {
            Some(v) => v >= 0,
            None => true,
        };
        let range_ok = match (self.minimum_fraction_digits, self.maximum_fraction_digits) {
            (Some(min), Some(max)) => min <= max,
            _ => true,
        };
        min_int_ok && min_frac_ok && max_frac_ok && range_ok
    }

    /// Makes digit options of three checked counts: refused where the
    /// minimum of fraction digits is above the maximum.
    pub fn combine(
        minimum_integer_digits: Option<i16>,
        minimum_fraction_digits: Option<i16>,
        maximum_fraction_digits: Option<i16>,
        rounding_mode: RoundingMode,
    ) -> (options: Result<DigitOptions, OptionError>)
        ensures
            options == counts_combined(
                minimum_integer_digits,
                minimum_fraction_digits,
                maximum_fraction_digits,
                rounding_mode,
            ),
            options matches Ok(o) ==> (o.wf() <==> count_ok(minimum_integer_digits) && count_ok(
                minimum_fraction_digits,
            ) && count_ok(maximum_fraction_digits)),
    {
        match (minimum_fraction_digits, maximum_fraction_digits) {
            (Some(min), Some(max)) => {
                if min > max {
                    return Err(OptionError::FractionRange);
                }
            },
            _ => {},
        }
        Ok(
            DigitOptions {
                minimum_integer_digits,
                minimum_fraction_digits,
                maximum_fraction_digits,
                rounding_mode,
            },
        )
    }

    /// Validates the three digit counts as they were given. The counts are
    /// checked in the order integer minimum, fraction minimum, fraction
    /// maximum, and the first fault is reported.
    pub fn new(
        minimum_integer_digits: Option<i64>,
        minimum_fraction_digits: Option<i64>,
        maximum_fraction_digits: Option<i64>,
        rounding_mode: RoundingMode,
    ) -> (options: Result<DigitOptions, OptionError>)
        ensures
            options == digit_options_checked(
                minimum_integer_digits,
                minimum_fraction_digits,
                maximum_fraction_digits,
                rounding_mode,
            ),
            options matches Ok(o) ==> o.wf(),
    {
        let min_int = match check_digit_count(
            OptionKey::MinimumIntegerDigits,
            minimum_integer_digits,
        ) {
            Ok(v) => v,
            Err(e) => {
                return Err(e);
            },
        };
        let min_frac = match check_digit_count(
            OptionKey::MinimumFractionDigits,
            minimum_fraction_digits,
        ) {
            Ok(v) => v,
            Err(e) => {
                return Err(e);
            },
        };
        let max_frac = match check_digit_count(
            OptionKey::MaximumFractionDigits,
            maximum_fraction_digits,
        ) {
            Ok(v) => v,
            Err(e) => {
                return Err(e);
            },
        };
        DigitOptions::combine(min_int, min_frac, max_frac, rounding_mode)
    }

    /// Runs the pipeline on `value`: scaling for a percentage, rounding,
    /// fraction padding and integer padding, in this order.
    pub fn apply(&self, value: &mut Decimal, percent: bool)
        requires
            self.wf(),
        ensures
            model_of(*final(value)) == self.applied(model_of(*old(value)), percent),
    {
        if percent {
            decimal_multiply_pow10(value, 2);
            decimal_trim_start(value);
        }
        if let Some(max) = self.maximum_fraction_digits {
            decimal_round_with_mode(value, -max, self.rounding_mode);
        }
        if let Some(min) = self.minimum_fraction_digits {
            let range = decimal_magnitude_range(value);
            if -min < range.0 {
                proof {
                    lemma_fraction_digits_extend(model_of(*value), min as int);
                }
                decimal_pad_end(value, -min);
            }
        }
        if let Some(min) = self.minimum_integer_digits {
            let range = decimal_magnitude_range(value);
            if min - 1 > range.1 {
                proof {
                    lemma_integer_digits_extend(model_of(*value), min as int);
                }
                decimal_pad_start(value, min);
            }
        }
    }
}

/// The count that a minimum asks for: none where it is not set.
pub open spec fn count_or_zero(count: Option<i16>) -> int {
    match count {
        Some(min) => min as int,
        None => 0,
    }
}

/// Padding only adds zeros and never changes the value: after the padding
/// steps the digits are the old ones between added zeros, none removed;
/// there are as many digits after and before the point as there were, or as
/// the minimums ask for if that is more; the sign is the same and every
/// digit stands where it stood.
pub proof fn law_padding_keeps_value(options: DigitOptions, value: DecimalModel)
    requires
        options.wf(),
        value.wf(),
    ensures
        options.padded(value).wf(),
        options.padded(value).sign == value.sign,
        options.padded(value).fraction_len() == larger(
            value.fraction_len(),
            count_or_zero(options.minimum_fraction_digits),
        ),
        options.padded(value).point == larger(
            value.point,
            count_or_zero(options.minimum_integer_digits),
        ),
        options.padded(value).digits == zeros(
            count_or_zero(options.minimum_integer_digits) - value.point,
        ) + value.digits + zeros(
            count_or_zero(options.minimum_fraction_digits) - value.fraction_len(),
        ),
        forall|k: int| #[trigger] options.padded(value).digit_at(k) == value.digit_at(k),
{
    let min_frac = count_or_zero(options.minimum_fraction_digits);
    let min_int = count_or_zero(options.minimum_integer_digits);
    let with_fraction = value.extended_end(min_frac);
    law_extended_end(value, min_frac);
    law_extended_start(with_fraction, min_int);
    assert(options.padded(value) == with_fraction.extended_start(min_int));
    assert forall|k: int| #[trigger] options.padded(value).digit_at(k) == value.digit_at(k) by {
        assert(with_fraction.digit_at(k) == value.digit_at(k));
    }
    assert(options.padded(value).digits =~= zeros(min_int - value.point) + value.digits + zeros(
        min_frac - value.fraction_len(),
    ));
}

/// Scaling for a percentage moves every digit up by two places and keeps
/// the sign, as long as the value has room for two more digits before the
/// point.
pub proof fn law_percentage_scales(value: DecimalModel)
    requires
        value.wf(),
        value.point + 2 <= 32768,
    ensures
        DigitOptions::scaled(value, true).wf(),
        DigitOptions::scaled(value, true).sign == value.sign,
        forall|k: int| #[trigger]
            DigitOptions::scaled(value, true).digit_at(k + 2) == value.digit_at(k),
{
    law_shifted_up(value, 2);
    law_trimmed_start(value.shifted_up(2));
    assert forall|k: int| #[trigger]
        DigitOptions::scaled(value, true).digit_at(k + 2) == value.digit_at(k) by {
        assert(value.shifted_up(2).digit_at(k + 2) == value.digit_at(k));
    }
}

/// Without a percentage and without any limit the pipeline changes nothing.
pub proof fn law_no_options_no_change(options: DigitOptions, value: DecimalModel)
    requires
        options.minimum_integer_digits is None,
        options.minimum_fraction_digits is None,
        options.maximum_fraction_digits is None,
    ensures
        options.applied(value, false) == value,
{
}

/// Rounding comes before padding: the padding steps see the rounded value,
/// so whatever rounding gives, the result shows its digits with at least
/// the minimum counts.
pub proof fn law_rounding_before_padding(options: DigitOptions, value: DecimalModel, percent: bool)
    requires
        options.wf(),
        options.rounded(DigitOptions::scaled(value, percent)).wf(),
    ensures
        options.applied(value, percent).wf(),
        forall|k: int| #[trigger]
            options.applied(value, percent).digit_at(k) == options.rounded(
                DigitOptions::scaled(value, percent),
            ).digit_at(k),
        options.applied(value, percent).fraction_len() >= count_or_zero(
            options.minimum_fraction_digits,
        ),
        options.applied(value, percent).point >= count_or_zero(options.minimum_integer_digits),
{
    law_padding_keeps_value(options, options.rounded(DigitOptions::scaled(value, percent)));
}

/// The canonical configuration of a number formatter.
#[derive(Clone, PartialEq, Eq, Debug)]
pub struct NumberDescriptor {
    pub style: NumberStyle,
    pub use_grouping: bool,
    pub currency: Option<String>,
    pub digits: DigitOptions,
}

/// The model of a number descriptor: the currency as plain text.
pub struct NumberDescriptorModel {
    pub style: NumberStyle,
    pub use_grouping: bool,
    pub currency: Option<Seq<char>>,
    pub digits: DigitOptions,
}

impl View for NumberDescriptor {
    type V = NumberDescriptorModel;

    open spec fn view(&self) -> NumberDescriptorModel {
        NumberDescriptorModel {
            style: self.style,
            use_grouping: self.use_grouping,
            currency: match self.currency {
                Some(code) => Some(code@),
                None => None,
            },
            digits: self.digits,
        }
    }
}

/// The number style of an option set: decimal where none is given.
pub open spec fn number_style_of(entries: Seq<OptionEntry>) -> Result<NumberStyle, OptionError> {
    match label_of(entries, OptionKey::Style) {
        Err(e) => Err(e),
        Ok(None) => Ok(NumberStyle::Decimal),
        Ok(Some(label)) => match number_style_label_value(label) {
            Some(style) => Ok(style),
            None => Err(OptionError::InvalidValue(OptionKey::Style)),
        },
    }
}

/// Whether digits are grouped: they are where nothing is said.
pub open spec fn grouping_of(entries: Seq<OptionEntry>) -> Result<bool, OptionError> {
    match flag_of(entries, OptionKey::UseGrouping) {
        Err(e) => Err(e),
        Ok(None) => Ok(true),
        Ok(Some(flag)) => Ok(flag),
    }
}

/// The digit count given under `key`, checked.
pub open spec fn digit_count_of(entries: Seq<OptionEntry>, key: OptionKey) -> Result<
    Option<i16>,
    OptionError,
> {
    match count_of(entries, key) {
        Err(e) => Err(e),
        Ok(value) => digit_count_checked(key, value),
    }
}

/// The rounding mode of an option set: half-expand where none is given.
pub open spec fn rounding_mode_of(entries: Seq<OptionEntry>) -> Result<RoundingMode, OptionError> {
    match label_of(entries, OptionKey::RoundingMode) {
        Err(e) => Err(e),
        Ok(None) => Ok(RoundingMode::HalfExpand),
        Ok(Some(label)) => match rounding_mode_label_value(label) {
            Some(mode) => Ok(mode),
            None => Err(OptionError::InvalidValue(OptionKey::RoundingMode)),
        },
    }
}

/// Whether a character is an ASCII letter.
pub open spec fn is_ascii_letter(c: char) -> bool {
    ('A' <= c <= 'Z') || ('a' <= c <= 'z')
}

/// Whether a text has the form of a currency code: three ASCII letters.
pub open spec fn currency_code_ok(text: Seq<char>) -> bool {
    &&& text.len() == 3
    &&& is_ascii_letter(text[0])
    &&& is_ascii_letter(text[1])
    &&& is_ascii_letter(text[2])
}

/// Says whether a character is an ASCII letter.
pub fn ascii_letter(c: char) -> (letter: bool)
    ensures
        letter == is_ascii_letter(c),
{
    ('A' <= c && c <= 'Z') || ('a' <= c && c <= 'z')
}

/// Says whether a text has the form of a currency code: three ASCII
/// letters.
pub fn is_currency_code(text: &str) -> (ok: bool)
    ensures
        ok == currency_code_ok(text@),
{
    if text.unicode_len() != 3 {
        return false;
    }
    ascii_letter(text.get_char(0)) && ascii_letter(text.get_char(1)) && ascii_letter(
        text.get_char(2),
    )
}

/// The descriptor that an option set for numbers resolves to. Faults are
/// reported in this order: a key that such option sets may not hold; the
/// style; a currency that is no text, or none with the currency style; the
/// grouping switch; the minimum of integer digits, the minimum and the
/// maximum of fraction digits; the rounding mode; with the currency style, a
/// currency that has not the form of a code; a minimum of fraction digits
/// above the maximum.
pub open spec fn number_resolved(entries: Seq<OptionEntry>) -> Result<
    NumberDescriptorModel,
    OptionError,
> {
    let min_int = digit_count_of(entries, OptionKey::MinimumIntegerDigits);
    let min_frac = digit_count_of(entries, OptionKey::MinimumFractionDigits);
    let max_frac = digit_count_of(entries, OptionKey::MaximumFractionDigits);
    if first_unknown(entries, OptionGroup::Number, 0) is Some {
        Err(OptionError::UnknownKey(first_unknown(entries, OptionGroup::Number, 0)->0 as usize))
    } else if number_style_of(entries) is Err {
        Err(number_style_of(entries)->Err_0)
    } else if label_of(entries, OptionKey::Currency) is Err {
        Err(label_of(entries, OptionKey::Currency)->Err_0)
    } else if number_style_of(entries)->Ok_0 == NumberStyle::Currency && label_of(
        entries,
        OptionKey::Currency,
    )->Ok_0 is None {
        Err(OptionError::MissingCurrency)
    } else if grouping_of(entries) is Err {
        Err(grouping_of(entries)->Err_0)
    } else if min_int is Err {
        Err(min_int->Err_0)
    } else if min_frac is Err {
        Err(min_frac->Err_0)
    } else if max_frac is Err {
        Err(max_frac->Err_0)
    } else if rounding_mode_of(entries) is Err {
        Err(rounding_mode_of(entries)->Err_0)
    } else if number_style_of(entries)->Ok_0 == NumberStyle::Currency && !currency_code_ok(
        label_of(entries, OptionKey::Currency)->Ok_0->0,
    ) {
        Err(OptionError::InvalidValue(OptionKey::Currency))
    } else {
        match counts_combined(
            min_int->Ok_0,
            min_frac->Ok_0,
            max_frac->Ok_0,
            rounding_mode_of(entries)->Ok_0,
        ) {
            Err(e) => Err(e),
            Ok(digits) => Ok(
                NumberDescriptorModel {
                    style: number_style_of(entries)->Ok_0,
                    use_grouping: grouping_of(entries)->Ok_0,
                    currency: label_of(entries, OptionKey::Currency)->Ok_0,
                    digits: digits,
                },
            ),
        }
    }
}

/// Resolving depends on nothing but the keys and values of the option set:
/// two option sets that hold the same resolve to the same descriptor or to
/// the same fault.
pub proof fn law_number_resolution_by_content(a: Seq<OptionEntry>, b: Seq<OptionEntry>)
    requires
        same_entries(a, b),
    ensures
        number_resolved(a) == number_resolved(b),
{
    lemma_same_unknown(a, b, OptionGroup::Number, 0);
    lemma_same_lookup(a, b, OptionKey::Style);
    lemma_same_lookup(a, b, OptionKey::Currency);
    lemma_same_lookup(a, b, OptionKey::UseGrouping);
    lemma_same_lookup(a, b, OptionKey::MinimumIntegerDigits);
    lemma_same_lookup(a, b, OptionKey::MinimumFractionDigits);
    lemma_same_lookup(a, b, OptionKey::MaximumFractionDigits);
    lemma_same_lookup(a, b, OptionKey::RoundingMode);
}

/// Reads the number style of an option set.
pub fn read_number_style(entries: &Vec<OptionEntry>) -> (style: Result<NumberStyle, OptionError>)
    ensures
        style == number_style_of(entries@),
{
    match get_label(entries, OptionKey::Style) {
        Err(e) => Err(e),
        Ok(None) => Ok(NumberStyle::Decimal),
        Ok(Some(label)) => match NumberStyle::from_label(label) {
            Some(style) => Ok(style),
            None => Err(OptionError::InvalidValue(OptionKey::Style)),
        },
    }
}

/// Reads and checks the digit count given under `key`.
pub fn read_digit_count(entries: &Vec<OptionEntry>, key: OptionKey) -> (count: Result<
    Option<i16>,
    OptionError,
>)
    ensures
        count == digit_count_of(entries@, key),
{
    match get_count(entries, key) {
        Err(e) => Err(e),
        Ok(value) => check_digit_count(key, value),
    }
}

/// Reads the rounding mode of an option set.
pub fn extract_rounding_mode(entries: &Vec<OptionEntry>) -> (mode: Result<
    RoundingMode,
    OptionError,
>)
    ensures
        mode == rounding_mode_of(entries@),
{
    match get_label(entries, OptionKey::RoundingMode) {
        Err(e) => Err(e),
        Ok(None) => Ok(RoundingMode::default()),
        Ok(Some(label)) => match RoundingMode::from_label(label) {
            Some(mode) => Ok(mode),
            None => Err(OptionError::InvalidValue(OptionKey::RoundingMode)),
        },
    }
}

/// Resolves an option set for numbers to the canonical descriptor.
pub fn resolve_number(entries: &Vec<OptionEntry>) -> (descriptor: Result<
    NumberDescriptor,
    OptionError,
>)
    ensures
        match descriptor {
            Ok(d) => number_resolved(entries@) == Ok::<NumberDescriptorModel, OptionError>(d@)
                && d.digits.wf(),
            Err(e) => number_resolved(entries@) == Err::<NumberDescriptorModel, OptionError>(e),
        },
{
    match find_unknown(entries, OptionGroup::Number) {
        Some(i) => {
            return Err(OptionError::UnknownKey(i));
        },
        None => {},
    }
    let style = match read_number_style(entries) {
        Ok(value) => value,
        Err(e) => {
            return Err(e);
        },
    };
    let currency = match get_label(entries, OptionKey::Currency) {
        Ok(Some(code)) => Some(String::from_str(code)),
        Ok(None) => None,
        Err(e) => {
            return Err(e);
        },
    };
    if style == NumberStyle::Currency && currency.is_none() {
        return Err(OptionError::MissingCurrency);
    }
    let use_grouping = match get_flag(entries, OptionKey::UseGrouping) {
        Ok(Some(flag)) => flag,
        Ok(None) => true,
        Err(e) => {
            return Err(e);
        },
    };
    let min_int = match read_digit_count(entries, OptionKey::MinimumIntegerDigits) {
        Ok(value) => value,
        Err(e) => {
            return Err(e);
        },
    };
    let min_frac = match read_digit_count(entries, OptionKey::MinimumFractionDigits) {
        Ok(value) => value,
        Err(e) => {
            return Err(e);
        },
    };
    let max_frac = match read_digit_count(entries, OptionKey::MaximumFractionDigits) {
        Ok(value) => value,
        Err(e) => {
            return Err(e);
        },
    };
    let rounding_mode = match extract_rounding_mode(entries) {
        Ok(value) => value,
        Err(e) => {
            return Err(e);
        },
    };
    if style == NumberStyle::Currency {
        let code_ok = match &currency {
            Some(code) => is_currency_code(code.as_str()),
            None => false,
        };
        if !code_ok {
            return Err(OptionError::InvalidValue(OptionKey::Currency));
        }
    }
    match DigitOptions::combine(min_int, min_frac, max_frac, rounding_mode) {
        Ok(digits) => Ok(NumberDescriptor { style, use_grouping, currency, digits }),
        Err(e) => Err(e),
    }
}

impl NumberDescriptor {
    /// Prepares `value` for rendering: the digit pipeline, with scaling
    /// where the style is percent.
    pub fn prepare(&self, value: &mut Decimal)
        requires
            self.digits.wf(),
        ensures
            model_of(*final(value)) == self.digits.applied(
                model_of(*old(value)),
                self.style == NumberStyle::Percent,
            ),
    {
        self.digits.apply(value, self.style == NumberStyle::Percent);
    }

    /// The rounding mode as the resolved options show it: only where a
    /// maximum of fraction digits is set.
    pub fn resolved_rounding_mode(&self) -> (mode: Option<RoundingMode>)
        ensures
            mode == if self.digits.maximum_fraction_digits is Some {
                Some(self.digits.rounding_mode)
            } else {
                None
            },
    {
        if self.digits.maximum_fraction_digits.is_some() {
            Some(self.digits.rounding_mode)
        } else {
            None
        }
    }
}

/// Turns an integer into a decimal and runs the digit pipeline on it.
pub fn prepare_integer(n: i64, options: &DigitOptions, percent: bool) -> (value: Decimal)
    requires
        options.wf(),
    ensures
        model_of(value) == options.applied(DecimalModel::from_int(n as int), percent),
{
    let mut value = decimal_from_i64(n);
    options.apply(&mut value, percent);
    value
}

/// Parses a text as a decimal and runs the digit pipeline on it; nothing
/// where the text is not a decimal.
pub fn prepare_text(text: &str, options: &DigitOptions, percent: bool) -> (value: Option<Decimal>)
    requires
        options.wf(),
    ensures
        match value {
            Some(d) => parsed_decimal(text@) is Some && model_of(d) == options.applied(
                parsed_decimal(text@)->0,
                percent,
            ),
            None => parsed_decimal(text@) is None,
        },
{
    match decimal_from_str(text) {
        Some(parsed) => {
            let mut value = parsed;
            options.apply(&mut value, percent);
            Some(value)
        },
        None => None,
    }
}

/// Writes a decimal without any locale: an optional sign, the digits, and
/// a point before the fraction digits.
pub fn render_decimal(value: &Decimal) -> (text: String)
    ensures
        text@ == decimal_text(model_of(*value)),
{
    decimal_to_string(value)
}

/// Formats an integer without any locale.
pub fn format_integer(n: i64, options: &DigitOptions, percent: bool) -> (text: String)
    requires
        options.wf(),
    ensures
        text@ == decimal_text(options.applied(DecimalModel::from_int(n as int), percent)),
{
    let value = prepare_integer(n, options, percent);
    render_decimal(&value)
}

/// Formats a decimal given as text without any locale; nothing where the
/// text is not a decimal.
pub fn format_text(text: &str, options: &DigitOptions, percent: bool) -> (formatted: Option<String>)
    requires
        options.wf(),
    ensures
        match formatted {
            Some(s) => parsed_decimal(text@) is Some && s@ == decimal_text(
                options.applied(parsed_decimal(text@)->0, percent),
            ),
            None => parsed_decimal(text@) is None,
        },
{
    match prepare_text(text, options, percent) {
        Some(value) => Some(render_decimal(&value)),
        None => None,
    }
}

} // verus!
