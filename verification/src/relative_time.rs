//! Option resolution for relative time formatters, and their units.

use crate::options::choice_of;
use crate::options::find_unknown;
use crate::options::first_unknown;
use crate::options::read_choice;
use crate::options::text_eq;
use crate::options::Labelled;
use crate::options::OptionEntry;
use crate::options::OptionError;
use crate::options::OptionGroup;
use crate::options::OptionKey;
use vstd::prelude::*;

verus! {

/// How verbose a relative time is.
#[derive(Clone, Copy, PartialEq, Eq, Structural, Debug)]
pub enum RelativeStyle {
    Long,
    Short,
    Narrow,
}

/// The label of each relative style.
pub open spec fn relative_style_label(value: RelativeStyle) -> Seq<char> {
    match value {
        RelativeStyle::Long => "long"@,
        RelativeStyle::Short => "short"@,
        RelativeStyle::Narrow => "narrow"@,
    }
}

/// The relative style that a label names, if any: the first whose label it is.
pub open spec fn relative_style_label_value(label: Seq<char>) -> Option<RelativeStyle> {
    if label == "long"@ {
        Some(RelativeStyle::Long)
    } else if label == "short"@ {
        Some(RelativeStyle::Short)
    } else if label == "narrow"@ {
        Some(RelativeStyle::Narrow)
    } else {
        None
    }
}

/// The labels are a two-way table: each relative style is the one that its own
/// label names.
pub proof fn law_relative_style_labels(value: RelativeStyle)
    ensures
        relative_style_label_value(relative_style_label(value)) == Some(value),
{
    reveal_strlit("long");
    reveal_strlit("short");
    reveal_strlit("narrow");
    assert("long"@.len() == 4 && "short"@.len() == 5 && "narrow"@.len() == 6);
}

impl RelativeStyle {
    /// The label that names this relative style.
    pub fn to_symbol_name(self) -> (label: &'static str)
        ensures
            label@ == relative_style_label(self),
    {
        match self {
            RelativeStyle::Long => "long",
            RelativeStyle::Short => "short",
            RelativeStyle::Narrow => "narrow",
        }
    }
}

impl Labelled for RelativeStyle {
    open spec fn label_value(label: Seq<char>) -> Option<RelativeStyle> {
        relative_style_label_value(label)
    }

    fn from_label(label: &str) -> (value: Option<RelativeStyle>) {
        if text_eq(label, "long") {
            Some(RelativeStyle::Long)
        } else if text_eq(label, "short") {
            Some(RelativeStyle::Short)
        } else if text_eq(label, "narrow") {
            Some(RelativeStyle::Narrow)
        } else {
            None
        }
    }
}

/// Whether a relative time is always written with a number.
#[derive(Clone, Copy, PartialEq, Eq, Structural, Debug)]
pub enum NumericMode {
    Always,
    Auto,
}

/// The label of each numeric mode.
pub open spec fn numeric_mode_label(value: NumericMode) -> Seq<char> {
    match value {
        NumericMode::Always => "always"@,
        NumericMode::Auto => "auto"@,
    }
}

/// The numeric mode that a label names, if any: the first whose label it is.
pub open spec fn numeric_mode_label_value(label: Seq<char>) -> Option<NumericMode> {
    if label == "always"@ {
        Some(NumericMode::Always)
    } else if label == "auto"@ {
        Some(NumericMode::Auto)
    } else {
        None
    }
}

/// The labels are a two-way table: each numeric mode is the one that its own
/// label names.
pub proof fn law_numeric_mode_labels(value: NumericMode)
    ensures
        numeric_mode_label_value(numeric_mode_label(value)) == Some(value),
{
    reveal_strlit("always");
    reveal_strlit("auto");
    assert("always"@.len() == 6 && "auto"@.len() == 4);
}

impl NumericMode {
    /// The label that names this numeric mode.
    pub fn to_symbol_name(self) -> (label: &'static str)
        ensures
            label@ == numeric_mode_label(self),
    {
        match self {
            NumericMode::Always => "always",
            NumericMode::Auto => "auto",
        }
    }
}

impl Labelled for NumericMode {
    open spec fn label_value(label: Seq<char>) -> Option<NumericMode> {
        numeric_mode_label_value(label)
    }

    fn from_label(label: &str) -> (value: Option<NumericMode>) {
        if text_eq(label, "always") {
            Some(NumericMode::Always)
        } else if text_eq(label, "auto") {
            Some(NumericMode::Auto)
        } else {
            None
        }
    }
}

/// The units of relative time.
#[derive(Clone, Copy, PartialEq, Eq, Structural, Debug)]
pub enum Unit {
    Second,
    Minute,
    Hour,
    Day,
    Week,
    Month,
    Quarter,
    Year,
}

/// The label of each unit.
pub open spec fn unit_label(value: Unit) -> Seq<char> {
    match value {
        Unit::Second => "second"@,
        Unit::Minute => "minute"@,
        Unit::Hour => "hour"@,
        Unit::Day => "day"@,
        Unit::Week => "week"@,
        Unit::Month => "month"@,
        Unit::Quarter => "quarter"@,
        Unit::Year => "year"@,
    }
}

/// The unit that a label names, if any: the first whose label it is.
pub open spec fn unit_label_value(label: Seq<char>) -> Option<Unit> {
    if label == "second"@ {
        Some(Unit::Second)
    } else if label == "minute"@ {
        Some(Unit::Minute)
    } else if label == "hour"@ {
        Some(Unit::Hour)
    } else if label == "day"@ {
        Some(Unit::Day)
    } else if label == "week"@ {
        Some(Unit::Week)
    } else if label == "month"@ {
        Some(Unit::Month)
    } else if label == "quarter"@ {
        Some(Unit::Quarter)
    } else if label == "year"@ {
        Some(Unit::Year)
    } else {
        None
    }
}

/// The labels are a two-way table: each unit is the one that its own
/// label names.
pub proof fn law_unit_labels(value: Unit)
    ensures
        unit_label_value(unit_label(value)) == Some(value),
{
    reveal_strlit("second");
    reveal_strlit("minute");
    reveal_strlit("hour");
    reveal_strlit("day");
    reveal_strlit("week");
    reveal_strlit("month");
    reveal_strlit("quarter");
    reveal_strlit("year");
    assert("second"@.len() == 6 && "minute"@.len() == 6 && "hour"@.len() == 4 && "day"@.len() == 3 && "week"@.len() == 4 && "month"@.len() == 5 && "quarter"@.len() == 7 && "year"@.len() == 4);
    assert("second"@[0] == 's' && "minute"@[0] == 'm' && "hour"@[0] == 'h' && "week"@[0] == 'w' && "year"@[0] == 'y');
}

impl Unit {
    /// The label that names this unit.
    pub fn to_symbol_name(self) -> (label: &'static str)
        ensures
            label@ == unit_label(self),
    {
        match self {
            Unit::Second => "second",
            Unit::Minute => "minute",
            Unit::Hour => "hour",
            Unit::Day => "day",
            Unit::Week => "week",
            Unit::Month => "month",
            Unit::Quarter => "quarter",
            Unit::Year => "year",
        }
    }
}

impl Labelled for Unit {
    open spec fn label_value(label: Seq<char>) -> Option<Unit> {
        unit_label_value(label)
    }

    fn from_label(label: &str) -> (value: Option<Unit>) {
        if text_eq(label, "second") {
            Some(Unit::Second)
        } else if text_eq(label, "minute") {
            Some(Unit::Minute)
        } else if text_eq(label, "hour") {
            Some(Unit::Hour)
        } else if text_eq(label, "day") {
            Some(Unit::Day)
        } else if text_eq(label, "week") {
            Some(Unit::Week)
        } else if text_eq(label, "month") {
            Some(Unit::Month)
        } else if text_eq(label, "quarter") {
            Some(Unit::Quarter)
        } else if text_eq(label, "year") {
            Some(Unit::Year)
        } else {
            None
        }
    }
}

/// The number of units.
pub const UNIT_COUNT: usize = 8;

/// The place of each unit among the units, from the shortest to the longest.
pub open spec fn unit_index(unit: Unit) -> int {
    match unit {
        Unit::Second => 0,
        Unit::Minute => 1,
        Unit::Hour => 2,
        Unit::Day => 3,
        Unit::Week => 4,
        Unit::Month => 5,
        Unit::Quarter => 6,
        Unit::Year => 7,
    }
}

impl Unit {
    /// The unit that `label` names.
    pub fn from_symbol(label: &str) -> (unit: Result<Unit, OptionError>)
        ensures
            unit == match unit_label_value(label@) {
                Some(u) => Ok::<Unit, OptionError>(u),
                None => Err::<Unit, OptionError>(OptionError::InvalidUnit),
            },
    {
        match Unit::from_label(label) {
            Some(unit) => Ok(unit),
            None => Err(OptionError::InvalidUnit),
        }
    }

    /// The place of this unit among the units: an index below the number of
    /// units, and a different one for each unit.
    pub fn index(self) -> (index: usize)
        ensures
            index == unit_index(self),
            index < UNIT_COUNT,
    {
        match self {
            Unit::Second => 0,
            Unit::Minute => 1,
            Unit::Hour => 2,
            Unit::Day => 3,
            Unit::Week => 4,
            Unit::Month => 5,
            Unit::Quarter => 6,
            Unit::Year => 7,
        }
    }
}

/// Different units have different places.
pub proof fn law_unit_index_injective(a: Unit, b: Unit)
    requires
        unit_index(a) == unit_index(b),
    ensures
        a == b,
{
}

/// The canonical configuration of a relative time formatter.
#[derive(Clone, Copy, PartialEq, Eq, Structural, Debug)]
pub struct RelativeTimeDescriptor {
    pub style: RelativeStyle,
    pub numeric: NumericMode,
}

/// The descriptor that an option set for relative times resolves to: long
/// style, always with a number, where nothing is said. Faults are reported
/// in this order: a key that such option sets may not hold, the style, the
/// numeric mode.
pub open spec fn relative_time_resolved(entries: Seq<OptionEntry>) -> Result<RelativeTimeDescriptor, OptionError> {
    if first_unknown(entries, OptionGroup::RelativeTime, 0) is Some {
        Err(OptionError::UnknownKey(first_unknown(entries, OptionGroup::RelativeTime, 0)->0 as usize))
    } else if choice_of::<RelativeStyle>(entries, OptionKey::Style) is Err {
        Err(choice_of::<RelativeStyle>(entries, OptionKey::Style)->Err_0)
    } else if choice_of::<NumericMode>(entries, OptionKey::Numeric) is Err {
        Err(choice_of::<NumericMode>(entries, OptionKey::Numeric)->Err_0)
    } else {
        Ok(
            RelativeTimeDescriptor {
                style: match choice_of::<RelativeStyle>(entries, OptionKey::Style)->Ok_0 {
                    Some(value) => value,
                    None => RelativeStyle::Long,
                },
                numeric: match choice_of::<NumericMode>(entries, OptionKey::Numeric)->Ok_0 {
                    Some(value) => value,
                    None => NumericMode::Always,
                },
            },
        )
    }
}

/// Resolves an option set to the canonical descriptor.
pub fn resolve_relative_time(entries: &Vec<OptionEntry>) -> (descriptor: Result<
    RelativeTimeDescriptor,
    OptionError,
>)
    ensures
        descriptor == relative_time_resolved(entries@),
{
    match find_unknown(entries, OptionGroup::RelativeTime) {
        Some(i) => {
            return Err(OptionError::UnknownKey(i));
        },
        None => {},
    }
    let style = match read_choice::<RelativeStyle>(entries, OptionKey::Style) {
        Ok(Some(value)) => value,
        Ok(None) => RelativeStyle::Long,
        Err(e) => {
            return Err(e);
        },
    };
    let numeric = match read_choice::<NumericMode>(entries, OptionKey::Numeric) {
        Ok(Some(value)) => value,
        Ok(None) => NumericMode::Always,
        Err(e) => {
            return Err(e);
        },
    };
    Ok(RelativeTimeDescriptor { style, numeric })
}
} // verus!
