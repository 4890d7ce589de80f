//! Option resolution for duration formatters, and the validation of
//! durations.

use crate::options::choice_of;
use crate::options::find_unknown;
use crate::options::first_unknown;
use crate::options::read_choice;
use crate::options::text_eq;
use crate::options::Labelled;
use crate::options::OptionEntry;
use crate::options::OptionError;
use crate::options::OptionGroup;
use crate::options::OptionKey;
use vstd::prelude::*;

verus! {

/// How verbose a duration is.
#[derive(Clone, Copy, PartialEq, Eq, Structural, Debug)]
pub enum DurationStyle {
    Long,
    Short,
    Narrow,
    Digital,
}

/// The label of each duration style.
pub open spec fn duration_style_label(value: DurationStyle) -> Seq<char> {
    match value {
        DurationStyle::Long => "long"@,
        DurationStyle::Short => "short"@,
        DurationStyle::Narrow => "narrow"@,
        DurationStyle::Digital => "digital"@,
    }
}

/// The duration style that a label names, if any: the first whose label it is.
pub open spec fn duration_style_label_value(label: Seq<char>) -> Option<DurationStyle> {
    if label == "long"@ {
        Some(DurationStyle::Long)
    } else if label == "short"@ {
        Some(DurationStyle::Short)
    } else if label == "narrow"@ {
        Some(DurationStyle::Narrow)
    } else if label == "digital"@ {
        Some(DurationStyle::Digital)
    } else {
        None
    }
}

/// The labels are a two-way table: each duration style is the one that its own
/// label names.
pub proof fn law_duration_style_labels(value: DurationStyle)
    ensures
        duration_style_label_value(duration_style_label(value)) == Some(value),
{
    reveal_strlit("long");
    reveal_strlit("short");
    reveal_strlit("narrow");
    reveal_strlit("digital");
    assert("long"@.len() == 4 && "short"@.len() == 5 && "narrow"@.len() == 6 && "digital"@.len() == 7);
}

impl DurationStyle {
    /// The label that names this duration style.
    pub fn to_symbol_name(self) -> (label: &'static str)
        ensures
            label@ == duration_style_label(self),
    {
        match self {
            DurationStyle::Long => "long",
            DurationStyle::Short => "short",
            DurationStyle::Narrow => "narrow",
            DurationStyle::Digital => "digital",
        }
    }
}

impl Labelled for DurationStyle {
    open spec fn label_value(label: Seq<char>) -> Option<DurationStyle> {
        duration_style_label_value(label)
    }

    fn from_label(label: &str) -> (value: Option<DurationStyle>) {
        if text_eq(label, "long") {
            Some(DurationStyle::Long)
        } else if text_eq(label, "short") {
            Some(DurationStyle::Short)
        } else if text_eq(label, "narrow") {
            Some(DurationStyle::Narrow)
        } else if text_eq(label, "digital") {
            Some(DurationStyle::Digital)
        } else {
            None
        }
    }
}

/// The canonical configuration of a duration formatter.
#[derive(Clone, Copy, PartialEq, Eq, Structural, Debug)]
pub struct DurationDescriptor {
    pub style: DurationStyle,
}

/// The descriptor that an option set for durations resolves to: long style
/// where nothing is said. A key that such option sets may not hold is
/// reported before a fault in the style.
pub open spec fn duration_resolved(entries: Seq<OptionEntry>) -> Result<DurationDescriptor, OptionError> {
    if first_unknown(entries, OptionGroup::Duration, 0) is Some {
        Err(OptionError::UnknownKey(first_unknown(entries, OptionGroup::Duration, 0)->0 as usize))
    } else if choice_of::<DurationStyle>(entries, OptionKey::Style) is Err {
        Err(choice_of::<DurationStyle>(entries, OptionKey::Style)->Err_0)
    } else {
        Ok(
            DurationDescriptor {
                style: match choice_of::<DurationStyle>(entries, OptionKey::Style)->Ok_0 {
                    Some(value) => value,
                    None => DurationStyle::Long,
                },
            },
        )
    }
}

/// Resolves an option set to the canonical descriptor.
pub fn resolve_duration(entries: &Vec<OptionEntry>) -> (descriptor: Result<
    DurationDescriptor,
    OptionError,
>)
    ensures
        descriptor == duration_resolved(entries@),
{
    match find_unknown(entries, OptionGroup::Duration) {
        Some(i) => {
            return Err(OptionError::UnknownKey(i));
        },
        None => {},
    }
    let style = match read_choice::<DurationStyle>(entries, OptionKey::Style) {
        Ok(Some(value)) => value,
        Ok(None) => DurationStyle::Long,
        Err(e) => {
            return Err(e);
        },
    };
    Ok(DurationDescriptor { style })
}
/// The components of a duration.
#[derive(Clone, Copy, PartialEq, Eq, Structural, Debug)]
pub enum DurationUnit {
    Years,
    Months,
    Weeks,
    Days,
    Hours,
    Minutes,
    Seconds,
    Milliseconds,
    Microseconds,
    Nanoseconds,
}

/// Why a duration was refused.
#[derive(Clone, Copy, PartialEq, Eq, Structural, Debug)]
pub enum DurationError {
    /// This component is negative.
    Negative(DurationUnit),
    /// No component is above zero.
    Empty,
}

/// The components of a duration as the caller gave them.
#[derive(Clone, Copy, PartialEq, Eq, Structural, Debug)]
pub struct DurationInput {
    pub years: Option<i64>,
    pub months: Option<i64>,
    pub weeks: Option<i64>,
    pub days: Option<i64>,
    pub hours: Option<i64>,
    pub minutes: Option<i64>,
    pub seconds: Option<i64>,
    pub milliseconds: Option<i64>,
    pub microseconds: Option<i64>,
    pub nanoseconds: Option<i64>,
}

/// A duration: no component negative, at least one above zero.
#[derive(Clone, Copy, PartialEq, Eq, Structural, Debug)]
pub struct DurationValue {
    pub years: u64,
    pub months: u64,
    pub weeks: u64,
    pub days: u64,
    pub hours: u64,
    pub minutes: u64,
    pub seconds: u64,
    pub milliseconds: u64,
    pub microseconds: u64,
    pub nanoseconds: u64,
}

/// The amount of one component: zero where it is absent, a fault where it
/// is negative.
pub open spec fn component_amount(unit: DurationUnit, value: Option<i64>) -> Result<
    u64,
    DurationError,
> {
    match value {
        None => Ok(0),
        Some(v) => if v < 0 {
            Err(DurationError::Negative(unit))
        } else {
            Ok(v as u64)
        },
    }
}

/// Checks the amount of one component.
pub fn extract_u64(unit: DurationUnit, value: Option<i64>) -> (amount: Result<u64, DurationError>)
    ensures
        amount == component_amount(unit, value),
{
    match value {
        None => Ok(0),
        Some(v) => {
            if v < 0 {
                Err(DurationError::Negative(unit))
            } else {
                Ok(v as u64)
            }
        },
    }
}

impl DurationValue {
    /// Whether every component is zero.
    pub open spec fn is_zero(self) -> bool {
        self.years == 0
            && self.months == 0
            && self.weeks == 0
            && self.days == 0
            && self.hours == 0
            && self.minutes == 0
            && self.seconds == 0
            && self.milliseconds == 0
            && self.microseconds == 0
            && self.nanoseconds == 0
    }
}

impl DurationInput {
    /// The outcome of validation: the first negative component, from years
    /// down to nanoseconds, is a fault; so is a duration with no component
    /// above zero.
    pub open spec fn checked(self) -> Result<DurationValue, DurationError> {
        if component_amount(DurationUnit::Years, self.years) is Err {
            Err(component_amount(DurationUnit::Years, self.years)->Err_0)
        } else if component_amount(DurationUnit::Months, self.months) is Err {
            Err(component_amount(DurationUnit::Months, self.months)->Err_0)
        } else if component_amount(DurationUnit::Weeks, self.weeks) is Err {
            Err(component_amount(DurationUnit::Weeks, self.weeks)->Err_0)
        } else if component_amount(DurationUnit::Days, self.days) is Err {
            Err(component_amount(DurationUnit::Days, self.days)->Err_0)
        } else if component_amount(DurationUnit::Hours, self.hours) is Err {
            Err(component_amount(DurationUnit::Hours, self.hours)->Err_0)
        } else if component_amount(DurationUnit::Minutes, self.minutes) is Err {
            Err(component_amount(DurationUnit::Minutes, self.minutes)->Err_0)
        } else if component_amount(DurationUnit::Seconds, self.seconds) is Err {
            Err(component_amount(DurationUnit::Seconds, self.seconds)->Err_0)
        } else if component_amount(DurationUnit::Milliseconds, self.milliseconds) is Err {
            Err(component_amount(DurationUnit::Milliseconds, self.milliseconds)->Err_0)
        } else if component_amount(DurationUnit::Microseconds, self.microseconds) is Err {
            Err(component_amount(DurationUnit::Microseconds, self.microseconds)->Err_0)
        } else if component_amount(DurationUnit::Nanoseconds, self.nanoseconds) is Err {
            Err(component_amount(DurationUnit::Nanoseconds, self.nanoseconds)->Err_0)
        } else {
            let value = DurationValue {
                years: component_amount(DurationUnit::Years, self.years)->Ok_0,
                months: component_amount(DurationUnit::Months, self.months)->Ok_0,
                weeks: component_amount(DurationUnit::Weeks, self.weeks)->Ok_0,
                days: component_amount(DurationUnit::Days, self.days)->Ok_0,
                hours: component_amount(DurationUnit::Hours, self.hours)->Ok_0,
                minutes: component_amount(DurationUnit::Minutes, self.minutes)->Ok_0,
                seconds: component_amount(DurationUnit::Seconds, self.seconds)->Ok_0,
                milliseconds: component_amount(DurationUnit::Milliseconds, self.milliseconds)->Ok_0,
                microseconds: component_amount(DurationUnit::Microseconds, self.microseconds)->Ok_0,
                nanoseconds: component_amount(DurationUnit::Nanoseconds, self.nanoseconds)->Ok_0,
            };
            if value.is_zero() {
                Err(DurationError::Empty)
            } else {
                Ok(value)
            }
        }
    }

    /// The input with no component.
    pub fn empty() -> (input: DurationInput)
        ensures
            input == (DurationInput {
                years: None,
                months: None,
                weeks: None,
                days: None,
                hours: None,
                minutes: None,
                seconds: None,
                milliseconds: None,
                microseconds: None,
                nanoseconds: None,
            }),
    {
        DurationInput {
            years: None,
            months: None,
            weeks: None,
            days: None,
            hours: None,
            minutes: None,
            seconds: None,
            milliseconds: None,
            microseconds: None,
            nanoseconds: None,
        }
    }

    /// Validates the components.
    pub fn validate(&self) -> (value: Result<DurationValue, DurationError>)
        ensures
            value == self.checked(),
            value matches Ok(v) ==> !v.is_zero(),
    {
        let years = match extract_u64(DurationUnit::Years, self.years) {
            Ok(amount) => amount,
            Err(e) => {
                return Err(e);
            },
        };
        let months = match extract_u64(DurationUnit::Months, self.months) {
            Ok(amount) => amount,
            Err(e) => {
                return Err(e);
            },
        };
        let weeks = match extract_u64(DurationUnit::Weeks, self.weeks) {
            Ok(amount) => amount,
            Err(e) => {
                return Err(e);
            },
        };
        let days = match extract_u64(DurationUnit::Days, self.days) {
            Ok(amount) => amount,
            Err(e) => {
                return Err(e);
            },
        };
        let hours = match extract_u64(DurationUnit::Hours, self.hours) {
            Ok(amount) => amount,
            Err(e) => {
                return Err(e);
            },
        };
        let minutes = match extract_u64(DurationUnit::Minutes, self.minutes) {
            Ok(amount) => amount,
            Err(e) => {
                return Err(e);
            },
        };
        let seconds = match extract_u64(DurationUnit::Seconds, self.seconds) {
            Ok(amount) => amount,
            Err(e) => {
                return Err(e);
            },
        };
        let milliseconds = match extract_u64(DurationUnit::Milliseconds, self.milliseconds) {
            Ok(amount) => amount,
            Err(e) => {
                return Err(e);
            },
        };
        let microseconds = match extract_u64(DurationUnit::Microseconds, self.microseconds) {
            Ok(amount) => amount,
            Err(e) => {
                return Err(e);
            },
        };
        let nanoseconds = match extract_u64(DurationUnit::Nanoseconds, self.nanoseconds) {
            Ok(amount) => amount,
            Err(e) => {
                return Err(e);
            },
        };
        if years == 0
            && months == 0
            && weeks == 0
            && days == 0
            && hours == 0
            && minutes == 0
            && seconds == 0
            && milliseconds == 0
            && microseconds == 0
            && nanoseconds == 0 {
            return Err(DurationError::Empty);
        }
        Ok(
            DurationValue {
                years,
                months,
                weeks,
                days,
                hours,
                minutes,
                seconds,
                milliseconds,
                microseconds,
                nanoseconds,
            },
        )
    }
}

} // verus!
