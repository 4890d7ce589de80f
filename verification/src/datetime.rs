//! The option resolver for dates and times: from a sparse option set to one
//! canonical format descriptor.

use crate::options::text_eq;
use crate::options::Labelled;
use crate::options::choice_of;
use crate::options::find_unknown;
use crate::options::first_unknown;
use crate::options::get_label;
use crate::options::label_of;
use crate::options::lemma_same_lookup;
use crate::options::lemma_same_unknown;
use crate::options::OptionEntry;
use crate::options::present;
use crate::options::read_choice;
use crate::options::same_entries;
use crate::options::OptionError;
use crate::options::OptionGroup;
use crate::options::OptionKey;
use vstd::prelude::*;
use vstd::string::*;

verus! {

/// A coarse preset for the date part.
#[derive(Clone, Copy, PartialEq, Eq, Structural, Debug)]
pub enum DateStyle {
    Full,
    Long,
    Medium,
    Short,
}

/// The label of each date style.
pub open spec fn date_style_label(value: DateStyle) -> Seq<char> {
    match value {
        DateStyle::Full => "full"@,
        DateStyle::Long => "long"@,
        DateStyle::Medium => "medium"@,
        DateStyle::Short => "short"@,
    }
}

/// The date style that a label names, if any: the first whose label it is.
pub open spec fn date_style_label_value(label: Seq<char>) -> Option<DateStyle> {
    if label == "full"@ {
        Some(DateStyle::Full)
    } else if label == "long"@ {
        Some(DateStyle::Long)
    } else if label == "medium"@ {
        Some(DateStyle::Medium)
    } else if label == "short"@ {
        Some(DateStyle::Short)
    } else {
        None
    }
}

/// The labels are a two-way table: each date style is the one that its own
/// label names.
pub proof fn law_date_style_labels(value: DateStyle)
    ensures
        date_style_label_value(date_style_label(value)) == Some(value),
{
    reveal_strlit("full");
    reveal_strlit("long");
    reveal_strlit("medium");
    reveal_strlit("short");
    assert("full"@.len() == 4 && "long"@.len() == 4 && "medium"@.len() == 6 && "short"@.len() == 5);
    assert("full"@[0] == 'f' && "long"@[0] == 'l');
}

impl DateStyle {
    /// The label that names this date style.
    pub fn to_symbol_name(self) -> (label: &'static str)
        ensures
            label@ == date_style_label(self),
    {
        match self {
            DateStyle::Full => "full",
            DateStyle::Long => "long",
            DateStyle::Medium => "medium",
            DateStyle::Short => "short",
        }
    }
}

impl Labelled for DateStyle {
    open spec fn label_value(label: Seq<char>) -> Option<DateStyle> {
        date_style_label_value(label)
    }

    fn from_label(label: &str) -> (value: Option<DateStyle>) {
        if text_eq(label, "full") {
            Some(DateStyle::Full)
        } else if text_eq(label, "long") {
            Some(DateStyle::Long)
        } else if text_eq(label, "medium") {
            Some(DateStyle::Medium)
        } else if text_eq(label, "short") {
            Some(DateStyle::Short)
        } else {
            None
        }
    }
}

/// A coarse preset for the time part.
#[derive(Clone, Copy, PartialEq, Eq, Structural, Debug)]
pub enum TimeStyle {
    Full,
    Long,
    Medium,
    Short,
}

/// The label of each time style.
pub open spec fn time_style_label(value: TimeStyle) -> Seq<char> {
    match value {
        TimeStyle::Full => "full"@,
        TimeStyle::Long => "long"@,
        TimeStyle::Medium => "medium"@,
        TimeStyle::Short => "short"@,
    }
}

/// The time style that a label names, if any: the first whose label it is.
pub open spec fn time_style_label_value(label: Seq<char>) -> Option<TimeStyle> {
    if label == "full"@ {
        Some(TimeStyle::Full)
    } else if label == "long"@ {
        Some(TimeStyle::Long)
    } else if label == "medium"@ {
        Some(TimeStyle::Medium)
    } else if label == "short"@ {
        Some(TimeStyle::Short)
    } else {
        None
    }
}

/// The labels are a two-way table: each time style is the one that its own
/// label names.
pub proof fn law_time_style_labels(value: TimeStyle)
    ensures
        time_style_label_value(time_style_label(value)) == Some(value),
{
    reveal_strlit("full");
    reveal_strlit("long");
    reveal_strlit("medium");
    reveal_strlit("short");
    assert("full"@.len() == 4 && "long"@.len() == 4 && "medium"@.len() == 6 && "short"@.len() == 5);
    assert("full"@[0] == 'f' && "long"@[0] == 'l');
}

impl TimeStyle {
    /// The label that names this time style.
    pub fn to_symbol_name(self) -> (label: &'static str)
        ensures
            label@ == time_style_label(self),
    {
        match self {
            TimeStyle::Full => "full",
            TimeStyle::Long => "long",
            TimeStyle::Medium => "medium",
            TimeStyle::Short => "short",
        }
    }
}

impl Labelled for TimeStyle {
    open spec fn label_value(label: Seq<char>) -> Option<TimeStyle> {
        time_style_label_value(label)
    }

    fn from_label(label: &str) -> (value: Option<TimeStyle>) {
        if text_eq(label, "full") {
            Some(TimeStyle::Full)
        } else if text_eq(label, "long") {
            Some(TimeStyle::Long)
        } else if text_eq(label, "medium") {
            Some(TimeStyle::Medium)
        } else if text_eq(label, "short") {
            Some(TimeStyle::Short)
        } else {
            None
        }
    }
}

/// A calendar system, carried for the renderer.
#[derive(Clone, Copy, PartialEq, Eq, Structural, Debug)]
pub enum Calendar {
    Gregory,
    Japanese,
    Buddhist,
    Chinese,
    Hebrew,
    Islamic,
    Persian,
    Indian,
    Ethiopian,
    Coptic,
    Roc,
    Dangi,
}

/// The label of each calendar.
pub open spec fn calendar_label(value: Calendar) -> Seq<char> {
    match value {
        Calendar::Gregory => "gregory"@,
        Calendar::Japanese => "japanese"@,
        Calendar::Buddhist => "buddhist"@,
        Calendar::Chinese => "chinese"@,
        Calendar::Hebrew => "hebrew"@,
        Calendar::Islamic => "islamic"@,
        Calendar::Persian => "persian"@,
        Calendar::Indian => "indian"@,
        Calendar::Ethiopian => "ethiopian"@,
        Calendar::Coptic => "coptic"@,
        Calendar::Roc => "roc"@,
        Calendar::Dangi => "dangi"@,
    }
}

/// The calendar that a label names, if any: the first whose label it is.
pub open spec fn calendar_label_value(label: Seq<char>) -> Option<Calendar> {
    if label == "gregory"@ {
        Some(Calendar::Gregory)
    } else if label == "japanese"@ {
        Some(Calendar::Japanese)
    } else if label == "buddhist"@ {
        Some(Calendar::Buddhist)
    } else if label == "chinese"@ {
        Some(Calendar::Chinese)
    } else if label == "hebrew"@ {
        Some(Calendar::Hebrew)
    } else if label == "islamic"@ {
        Some(Calendar::Islamic)
    } else if label == "persian"@ {
        Some(Calendar::Persian)
    } else if label == "indian"@ {
        Some(Calendar::Indian)
    } else if label == "ethiopian"@ {
        Some(Calendar::Ethiopian)
    } else if label == "coptic"@ {
        Some(Calendar::Coptic)
    } else if label == "roc"@ {
        Some(Calendar::Roc)
    } else if label == "dangi"@ {
        Some(Calendar::Dangi)
    } else {
        None
    }
}

/// The labels are a two-way table: each calendar is the one that its own
/// label names.
pub proof fn law_calendar_labels(value: Calendar)
    ensures
        calendar_label_value(calendar_label(value)) == Some(value),
{
    reveal_strlit("gregory");
    reveal_strlit("japanese");
    reveal_strlit("buddhist");
    reveal_strlit("chinese");
    reveal_strlit("hebrew");
    reveal_strlit("islamic");
    reveal_strlit("persian");
    reveal_strlit("indian");
    reveal_strlit("ethiopian");
    reveal_strlit("coptic");
    reveal_strlit("roc");
    reveal_strlit("dangi");
    assert("gregory"@.len() == 7 && "japanese"@.len() == 8 && "buddhist"@.len() == 8 && "chinese"@.len() == 7 && "hebrew"@.len() == 6 && "islamic"@.len() == 7 && "persian"@.len() == 7 && "indian"@.len() == 6 && "ethiopian"@.len() == 9 && "coptic"@.len() == 6 && "roc"@.len() == 3 && "dangi"@.len() == 5);
    assert("gregory"@[0] == 'g' && "chinese"@[0] == 'c' && "islamic"@[0] == 'i' && "persian"@[0] == 'p' && "japanese"@[0] == 'j' && "buddhist"@[0] == 'b' && "hebrew"@[0] == 'h' && "indian"@[0] == 'i' && "coptic"@[0] == 'c');
}

impl Calendar {
    /// The label that names this calendar.
    pub fn to_symbol_name(self) -> (label: &'static str)
        ensures
            label@ == calendar_label(self),
    {
        match self {
            Calendar::Gregory => "gregory",
            Calendar::Japanese => "japanese",
            Calendar::Buddhist => "buddhist",
            Calendar::Chinese => "chinese",
            Calendar::Hebrew => "hebrew",
            Calendar::Islamic => "islamic",
            Calendar::Persian => "persian",
            Calendar::Indian => "indian",
            Calendar::Ethiopian => "ethiopian",
            Calendar::Coptic => "coptic",
            Calendar::Roc => "roc",
            Calendar::Dangi => "dangi",
        }
    }
}

impl Labelled for Calendar {
    open spec fn label_value(label: Seq<char>) -> Option<Calendar> {
        calendar_label_value(label)
    }

    fn from_label(label: &str) -> (value: Option<Calendar>) {
        if text_eq(label, "gregory") {
            Some(Calendar::Gregory)
        } else if text_eq(label, "japanese") {
            Some(Calendar::Japanese)
        } else if text_eq(label, "buddhist") {
            Some(Calendar::Buddhist)
        } else if text_eq(label, "chinese") {
            Some(Calendar::Chinese)
        } else if text_eq(label, "hebrew") {
            Some(Calendar::Hebrew)
        } else if text_eq(label, "islamic") {
            Some(Calendar::Islamic)
        } else if text_eq(label, "persian") {
            Some(Calendar::Persian)
        } else if text_eq(label, "indian") {
            Some(Calendar::Indian)
        } else if text_eq(label, "ethiopian") {
            Some(Calendar::Ethiopian)
        } else if text_eq(label, "coptic") {
            Some(Calendar::Coptic)
        } else if text_eq(label, "roc") {
            Some(Calendar::Roc)
        } else if text_eq(label, "dangi") {
            Some(Calendar::Dangi)
        } else {
            None
        }
    }
}

/// An hour cycle, carried for the renderer.
#[derive(Clone, Copy, PartialEq, Eq, Structural, Debug)]
pub enum HourCycle {
    H11,
    H12,
    H23,
}

/// The label of each hour cycle.
pub open spec fn hour_cycle_label(value: HourCycle) -> Seq<char> {
    match value {
        HourCycle::H11 => "h11"@,
        HourCycle::H12 => "h12"@,
        HourCycle::H23 => "h23"@,
    }
}

/// The hour cycle that a label names, if any: the first whose label it is.
pub open spec fn hour_cycle_label_value(label: Seq<char>) -> Option<HourCycle> {
    if label == "h11"@ {
        Some(HourCycle::H11)
    } else if label == "h12"@ {
        Some(HourCycle::H12)
    } else if label == "h23"@ {
        Some(HourCycle::H23)
    } else {
        None
    }
}

/// The labels are a two-way table: each hour cycle is the one that its own
/// label names.
pub proof fn law_hour_cycle_labels(value: HourCycle)
    ensures
        hour_cycle_label_value(hour_cycle_label(value)) == Some(value),
{
    reveal_strlit("h11");
    reveal_strlit("h12");
    reveal_strlit("h23");
    assert("h11"@.len() == 3 && "h12"@.len() == 3 && "h23"@.len() == 3);
    assert("h11"@[2] == '1' && "h12"@[2] == '2' && "h11"@[1] == '1' && "h23"@[1] == '2' && "h12"@[1] == '1');
}

impl HourCycle {
    /// The label that names this hour cycle.
    pub fn to_symbol_name(self) -> (label: &'static str)
        ensures
            label@ == hour_cycle_label(self),
    {
        match self {
            HourCycle::H11 => "h11",
            HourCycle::H12 => "h12",
            HourCycle::H23 => "h23",
        }
    }
}

impl Labelled for HourCycle {
    open spec fn label_value(label: Seq<char>) -> Option<HourCycle> {
        hour_cycle_label_value(label)
    }

    fn from_label(label: &str) -> (value: Option<HourCycle>) {
        if text_eq(label, "h11") {
            Some(HourCycle::H11)
        } else if text_eq(label, "h12") {
            Some(HourCycle::H12)
        } else if text_eq(label, "h23") {
            Some(HourCycle::H23)
        } else {
            None
        }
    }
}

/// How one component of a date or time is written.
#[derive(Clone, Copy, PartialEq, Eq, Structural, Debug)]
pub enum ComponentStyle {
    Numeric,
    TwoDigit,
    Long,
    Short,
    Narrow,
}

/// The label of each component style.
pub open spec fn component_style_label(value: ComponentStyle) -> Seq<char> {
    match value {
        ComponentStyle::Numeric => "numeric"@,
        ComponentStyle::TwoDigit => "two_digit"@,
        ComponentStyle::Long => "long"@,
        ComponentStyle::Short => "short"@,
        ComponentStyle::Narrow => "narrow"@,
    }
}

/// The component style that a label names, if any: the first whose label it is.
pub open spec fn component_style_label_value(label: Seq<char>) -> Option<ComponentStyle> {
    if label == "numeric"@ {
        Some(ComponentStyle::Numeric)
    } else if label == "two_digit"@ {
        Some(ComponentStyle::TwoDigit)
    } else if label == "long"@ {
        Some(ComponentStyle::Long)
    } else if label == "short"@ {
        Some(ComponentStyle::Short)
    } else if label == "narrow"@ {
        Some(ComponentStyle::Narrow)
    } else {
        None
    }
}

/// The labels are a two-way table: each component style is the one that its own
/// label names.
pub proof fn law_component_style_labels(value: ComponentStyle)
    ensures
        component_style_label_value(component_style_label(value)) == Some(value),
{
    reveal_strlit("numeric");
    reveal_strlit("two_digit");
    reveal_strlit("long");
    reveal_strlit("short");
    reveal_strlit("narrow");
    assert("numeric"@.len() == 7 && "two_digit"@.len() == 9 && "long"@.len() == 4 && "short"@.len() == 5 && "narrow"@.len() == 6);
}

impl ComponentStyle {
    /// The label that names this component style.
    pub fn to_symbol_name(self) -> (label: &'static str)
        ensures
            label@ == component_style_label(self),
    {
        match self {
            ComponentStyle::Numeric => "numeric",
            ComponentStyle::TwoDigit => "two_digit",
            ComponentStyle::Long => "long",
            ComponentStyle::Short => "short",
            ComponentStyle::Narrow => "narrow",
        }
    }
}

impl Labelled for ComponentStyle {
    open spec fn label_value(label: Seq<char>) -> Option<ComponentStyle> {
        component_style_label_value(label)
    }

    fn from_label(label: &str) -> (value: Option<ComponentStyle>) {
        if text_eq(label, "numeric") {
            Some(ComponentStyle::Numeric)
        } else if text_eq(label, "two_digit") {
            Some(ComponentStyle::TwoDigit)
        } else if text_eq(label, "long") {
            Some(ComponentStyle::Long)
        } else if text_eq(label, "short") {
            Some(ComponentStyle::Short)
        } else if text_eq(label, "narrow") {
            Some(ComponentStyle::Narrow)
        } else {
            None
        }
    }
}

/// How verbose a field set is rendered.
#[derive(Clone, Copy, PartialEq, Eq, Structural, Debug)]
pub enum Length {
    Long,
    Medium,
    Short,
}

/// The named sets of date fields. The letters stand for year, month, day
/// and weekday (`E`).
#[derive(Clone, Copy, PartialEq, Eq, Structural, Debug)]
pub enum DateFields {
    Y,
    M,
    D,
    E,
    YM,
    MD,
    DE,
    ME,
    YMD,
    MDE,
    YME,
    YMDE,
}

/// The finest unit of the time of day that is shown.
#[derive(Clone, Copy, PartialEq, Eq, Structural, Debug)]
pub enum TimePrecision {
    Hour,
    Minute,
    Second,
}

/// The date part of a field set: which fields, and how verbose.
#[derive(Clone, Copy, PartialEq, Eq, Structural, Debug)]
pub struct DatePart {
    pub fields: DateFields,
    pub length: Length,
}

/// The time part of a field set: down to which unit, and how verbose.
#[derive(Clone, Copy, PartialEq, Eq, Structural, Debug)]
pub struct TimePart {
    pub precision: TimePrecision,
    pub length: Length,
}

/// The set of fields that the renderer is asked to produce: a date part, a
/// time part, or both.
#[derive(Clone, Copy, PartialEq, Eq, Structural, Debug)]
pub struct FieldSet {
    pub date: Option<DatePart>,
    pub time: Option<TimePart>,
}

/// Independent styles for the single components of a date and a time.
#[derive(Clone, Copy, PartialEq, Eq, Structural, Debug)]
pub struct ComponentMatrix {
    pub year: Option<ComponentStyle>,
    pub month: Option<ComponentStyle>,
    pub day: Option<ComponentStyle>,
    pub weekday: Option<ComponentStyle>,
    pub hour: Option<ComponentStyle>,
    pub minute: Option<ComponentStyle>,
    pub second: Option<ComponentStyle>,
}

/// What the caller chose: coarse styles or single components, never both.
#[derive(Clone, Copy, PartialEq, Eq, Structural, Debug)]
pub enum Selection {
    Styles { date: Option<DateStyle>, time: Option<TimeStyle> },
    Components(ComponentMatrix),
}

/// The options for dates and times as the caller gave them, each value
/// already one of its key's values.
#[derive(Clone, Copy, PartialEq, Eq, Structural, Debug)]
pub struct DateTimeOptions {
    pub date_style: Option<DateStyle>,
    pub time_style: Option<TimeStyle>,
    pub components: ComponentMatrix,
    pub calendar: Option<Calendar>,
    pub hour_cycle: Option<HourCycle>,
}

/// The canonical configuration of a formatter for dates and times.
#[derive(Clone, Copy, PartialEq, Eq, Structural, Debug)]
pub struct FormatDescriptor {
    pub selection: Selection,
    pub field_set: FieldSet,
    pub calendar: Option<Calendar>,
    pub hour_cycle: Option<HourCycle>,
}

/// The length that a date style stands for: full and long are both long.
pub open spec fn date_style_length(style: DateStyle) -> Length {
    match style {
        DateStyle::Full | DateStyle::Long => Length::Long,
        DateStyle::Medium => Length::Medium,
        DateStyle::Short => Length::Short,
    }
}

/// The length that a time style stands for: full and long are both long.
pub open spec fn time_style_length(style: TimeStyle) -> Length {
    match style {
        TimeStyle::Full | TimeStyle::Long => Length::Long,
        TimeStyle::Medium => Length::Medium,
        TimeStyle::Short => Length::Short,
    }
}

/// Whether a component style writes a name rather than a number.
pub open spec fn is_textual(style: Option<ComponentStyle>) -> bool {
    style matches Some(s) && (s == ComponentStyle::Long || s == ComponentStyle::Short || s
        == ComponentStyle::Narrow)
}

/// The decision table from the presence of year, month, day and weekday to
/// the named set of date fields. A year with a day but no month takes the
/// month in; a year with only a weekday takes the month in.
pub open spec fn date_fields_for(year: bool, month: bool, day: bool, weekday: bool) -> Option<
    DateFields,
> {
    match (year, month, day, weekday) {
        (false, false, false, false) => None,
        (false, false, false, true) => Some(DateFields::E),
        (false, false, true, false) => Some(DateFields::D),
        (false, false, true, true) => Some(DateFields::DE),
        (false, true, false, false) => Some(DateFields::M),
        (false, true, false, true) => Some(DateFields::ME),
        (false, true, true, false) => Some(DateFields::MD),
        (false, true, true, true) => Some(DateFields::MDE),
        (true, false, false, false) => Some(DateFields::Y),
        (true, false, false, true) => Some(DateFields::YME),
        (true, false, true, false) => Some(DateFields::YMD),
        (true, false, true, true) => Some(DateFields::YMDE),
        (true, true, false, false) => Some(DateFields::YM),
        (true, true, false, true) => Some(DateFields::YME),
        (true, true, true, false) => Some(DateFields::YMD),
        (true, true, true, true) => Some(DateFields::YMDE),
    }
}

/// Whether a named set of date fields shows the year, the month, the day
/// and the weekday.
pub open spec fn date_fields_show(fields: DateFields) -> (bool, bool, bool, bool) {
    match fields {
        DateFields::Y => (true, false, false, false),
        DateFields::M => (false, true, false, false),
        DateFields::D => (false, false, true, false),
        DateFields::E => (false, false, false, true),
        DateFields::YM => (true, true, false, false),
        DateFields::MD => (false, true, true, false),
        DateFields::DE => (false, false, true, true),
        DateFields::ME => (false, true, false, true),
        DateFields::YMD => (true, true, true, false),
        DateFields::MDE => (false, true, true, true),
        DateFields::YME => (true, true, false, true),
        DateFields::YMDE => (true, true, true, true),
    }
}

/// The precision of the time part: that of the finest component present.
pub open spec fn time_precision_for(hour: bool, minute: bool, second: bool) -> Option<
    TimePrecision,
> {
    if second {
        Some(TimePrecision::Second)
    } else if minute {
        Some(TimePrecision::Minute)
    } else if hour {
        Some(TimePrecision::Hour)
    } else {
        None
    }
}

impl ComponentMatrix {
    /// The matrix with no component.
    pub open spec fn spec_empty() -> ComponentMatrix {
        ComponentMatrix {
            year: None,
            month: None,
            day: None,
            weekday: None,
            hour: None,
            minute: None,
            second: None,
        }
    }

    /// The components used when the caller chose nothing: year, month and
    /// day, all numeric.
    pub open spec fn spec_default() -> ComponentMatrix {
        ComponentMatrix {
            year: Some(ComponentStyle::Numeric),
            month: Some(ComponentStyle::Numeric),
            day: Some(ComponentStyle::Numeric),
            weekday: None,
            hour: None,
            minute: None,
            second: None,
        }
    }

    /// Whether any component is present.
    pub open spec fn any(self) -> bool {
        self.year is Some || self.month is Some || self.day is Some || self.weekday is Some
            || self.hour is Some || self.minute is Some || self.second is Some
    }

    /// Whether any component asks for a name rather than a number.
    pub open spec fn any_textual(self) -> bool {
        is_textual(self.year) || is_textual(self.month) || is_textual(self.day) || is_textual(
            self.weekday,
        ) || is_textual(self.hour) || is_textual(self.minute) || is_textual(self.second)
    }

    /// The length class of the matrix: long where a component is written as
    /// a name, short where all are numbers.
    pub open spec fn length(self) -> Length {
        if self.any_textual() {
            Length::Long
        } else {
            Length::Short
        }
    }

    /// The field set that the matrix selects.
    pub open spec fn field_set(self) -> FieldSet {
        FieldSet {
            date: match date_fields_for(
                self.year is Some,
                self.month is Some,
                self.day is Some,
                self.weekday is Some,
            ) {
                Some(fields) => Some(DatePart { fields: fields, length: self.length() }),
                None => None,
            },
            time: match time_precision_for(
                self.hour is Some,
                self.minute is Some,
                self.second is Some,
            ) {
                Some(precision) => Some(TimePart { precision: precision, length: self.length() }),
                None => None,
            },
        }
    }
}

/// The field set that a pair of styles selects: year, month and day where a
/// date style is given, the time of day to the second where a time style is
/// given, each part with the length of its own style.
pub open spec fn style_field_set(date: Option<DateStyle>, time: Option<TimeStyle>) -> FieldSet {
    FieldSet {
        date: match date {
            Some(style) => Some(
                DatePart { fields: DateFields::YMD, length: date_style_length(style) },
            ),
            None => None,
        },
        time: match time {
            Some(style) => Some(
                TimePart { precision: TimePrecision::Second, length: time_style_length(style) },
            ),
            None => None,
        },
    }
}

impl DateTimeOptions {
    /// Whether a style key is present.
    pub open spec fn has_style(self) -> bool {
        self.date_style is Some || self.time_style is Some
    }

    /// Whether a component key is present.
    pub open spec fn has_component(self) -> bool {
        self.components.any()
    }

    /// The outcome of resolution: a fault where styles and components are
    /// both given; the styles where one is given; else the components, or
    /// the default components where none is given.
    pub open spec fn resolved(self) -> Result<FormatDescriptor, OptionError> {
        if self.has_style() && self.has_component() {
            Err(OptionError::StyleWithComponents)
        } else if self.has_style() {
            Ok(
                FormatDescriptor {
                    selection: Selection::Styles { date: self.date_style, time: self.time_style },
                    field_set: style_field_set(self.date_style, self.time_style),
                    calendar: self.calendar,
                    hour_cycle: self.hour_cycle,
                },
            )
        } else {
            let matrix = if self.has_component() {
                self.components
            } else {
                ComponentMatrix::spec_default()
            };
            Ok(
                FormatDescriptor {
                    selection: Selection::Components(matrix),
                    field_set: matrix.field_set(),
                    calendar: self.calendar,
                    hour_cycle: self.hour_cycle,
                },
            )
        }
    }
}

impl DateStyle {
    /// The length that this style stands for.
    pub fn length(self) -> (length: Length)
        ensures
            length == date_style_length(self),
    {
        match self {
            DateStyle::Full | DateStyle::Long => Length::Long,
            DateStyle::Medium => Length::Medium,
            DateStyle::Short => Length::Short,
        }
    }
}

impl TimeStyle {
    /// The length that this style stands for.
    pub fn length(self) -> (length: Length)
        ensures
            length == time_style_length(self),
    {
        match self {
            TimeStyle::Full | TimeStyle::Long => Length::Long,
            TimeStyle::Medium => Length::Medium,
            TimeStyle::Short => Length::Short,
        }
    }
}

/// Says whether a component style writes a name rather than a number.
pub fn component_is_textual(style: Option<ComponentStyle>) -> (textual: bool)
    ensures
        textual == is_textual(style),
{
    match style {
        Some(ComponentStyle::Long) | Some(ComponentStyle::Short) | Some(
            ComponentStyle::Narrow,
        ) => true,
        _ => false,
    }
}

/// Selects the named set of date fields for the fields that are present.
pub fn select_date_fields(year: bool, month: bool, day: bool, weekday: bool) -> (fields: Option<
    DateFields,
>)
    ensures
        fields == date_fields_for(year, month, day, weekday),
{
    if year {
        if day {
            if weekday {
                Some(DateFields::YMDE)
            } else {
                Some(DateFields::YMD)
            }
        } else if weekday {
            Some(DateFields::YME)
        } else if month {
            Some(DateFields::YM)
        } else {
            Some(DateFields::Y)
        }
    } else if month {
        if day {
            if weekday {
                Some(DateFields::MDE)
            } else {
                Some(DateFields::MD)
            }
        } else if weekday {
            Some(DateFields::ME)
        } else {
            Some(DateFields::M)
        }
    } else if day {
        if weekday {
            Some(DateFields::DE)
        } else {
            Some(DateFields::D)
        }
    } else if weekday {
        Some(DateFields::E)
    } else {
        None
    }
}

/// Selects the precision of the time part for the components present.
pub fn select_time_precision(hour: bool, minute: bool, second: bool) -> (precision: Option<
    TimePrecision,
>)
    ensures
        precision == time_precision_for(hour, minute, second),
{
    if second {
        Some(TimePrecision::Second)
    } else if minute {
        Some(TimePrecision::Minute)
    } else if hour {
        Some(TimePrecision::Hour)
    } else {
        None
    }
}

/// Builds the field set for a pair of styles, of which at least one is
/// given.
pub fn create_field_set(date_style: Option<DateStyle>, time_style: Option<TimeStyle>) -> (set:
    FieldSet)
    requires
        date_style is Some || time_style is Some,
    ensures
        set == style_field_set(date_style, time_style),
        set.date is Some || set.time is Some,
{
    FieldSet {
        date: match date_style {
            Some(style) => Some(DatePart { fields: DateFields::YMD, length: style.length() }),
            None => None,
        },
        time: match time_style {
            Some(style) => Some(
                TimePart { precision: TimePrecision::Second, length: style.length() },
            ),
            None => None,
        },
    }
}

impl ComponentMatrix {
    /// The matrix with no component.
    pub fn empty() -> (matrix: ComponentMatrix)
        ensures
            matrix == ComponentMatrix::spec_empty(),
    {
        ComponentMatrix {
            year: None,
            month: None,
            day: None,
            weekday: None,
            hour: None,
            minute: None,
            second: None,
        }
    }

    /// Says whether any component is present.
    pub fn has_any(&self) -> (any: bool)
        ensures
            any == self.any(),
    {
        self.year.is_some() || self.month.is_some() || self.day.is_some()
            || self.weekday.is_some() || self.hour.is_some() || self.minute.is_some()
            || self.second.is_some()
    }

    /// Classifies the matrix: long where a component is written as a name,
    /// short where all are numbers.
    pub fn classify(&self) -> (length: Length)
        ensures
            length == self.length(),
    {
        if component_is_textual(self.year) || component_is_textual(self.month)
            || component_is_textual(self.day) || component_is_textual(self.weekday)
            || component_is_textual(self.hour) || component_is_textual(self.minute)
            || component_is_textual(self.second) {
            Length::Long
        } else {
            Length::Short
        }
    }

    /// Selects the field set for the components present.
    pub fn select_field_set(&self) -> (set: FieldSet)
        ensures
            set == self.field_set(),
    {
        let length = self.classify();
        FieldSet {
            date: match select_date_fields(
                self.year.is_some(),
                self.month.is_some(),
                self.day.is_some(),
                self.weekday.is_some(),
            ) {
                Some(fields) => Some(DatePart { fields, length }),
                None => None,
            },
            time: match select_time_precision(
                self.hour.is_some(),
                self.minute.is_some(),
                self.second.is_some(),
            ) {
                Some(precision) => Some(TimePart { precision, length }),
                None => None,
            },
        }
    }
}

impl Default for ComponentMatrix {
    /// The components used when the caller chose nothing: year, month and
    /// day, all numeric.
    fn default() -> (matrix: ComponentMatrix)
        ensures
            matrix == ComponentMatrix::spec_default(),
    {
        ComponentMatrix {
            year: Some(ComponentStyle::Numeric),
            month: Some(ComponentStyle::Numeric),
            day: Some(ComponentStyle::Numeric),
            weekday: None,
            hour: None,
            minute: None,
            second: None,
        }
    }
}

impl DateTimeOptions {
    /// The option set with nothing in it.
    pub fn empty() -> (options: DateTimeOptions)
        ensures
            options == (DateTimeOptions {
                date_style: None,
                time_style: None,
                components: ComponentMatrix::spec_empty(),
                calendar: None,
                hour_cycle: None,
            }),
    {
        DateTimeOptions {
            date_style: None,
            time_style: None,
            components: ComponentMatrix::empty(),
            calendar: None,
            hour_cycle: None,
        }
    }

    /// Resolves the options to the canonical descriptor.
    pub fn resolve(&self) -> (descriptor: Result<FormatDescriptor, OptionError>)
        ensures
            descriptor == self.resolved(),
    {
        let has_style = self.date_style.is_some() || self.time_style.is_some();
        let has_component = self.components.has_any();
        if has_style && has_component {
            Err(OptionError::StyleWithComponents)
        } else if has_style {
            Ok(
                FormatDescriptor {
                    selection: Selection::Styles { date: self.date_style, time: self.time_style },
                    field_set: create_field_set(self.date_style, self.time_style),
                    calendar: self.calendar,
                    hour_cycle: self.hour_cycle,
                },
            )
        } else {
            let matrix = if has_component {
                self.components
            } else {
                ComponentMatrix::default()
            };
            Ok(
                FormatDescriptor {
                    selection: Selection::Components(matrix),
                    field_set: matrix.select_field_set(),
                    calendar: self.calendar,
                    hour_cycle: self.hour_cycle,
                },
            )
        }
    }
}

/// The set of date fields that the renderer has for a named set: a month
/// with a weekday takes the day in; so do, beside a time part, a year and a
/// month, which the renderer has only for dates alone.
pub open spec fn renderable_fields(fields: DateFields, with_time: bool) -> DateFields {
    match fields {
        DateFields::ME => DateFields::MDE,
        DateFields::YME => DateFields::YMDE,
        DateFields::Y => if with_time {
            DateFields::YMD
        } else {
            DateFields::Y
        },
        DateFields::M => if with_time {
            DateFields::MD
        } else {
            DateFields::M
        },
        DateFields::YM => if with_time {
            DateFields::YMD
        } else {
            DateFields::YM
        },
        _ => fields,
    }
}

/// Whether the renderer has a set of date fields, alone or beside a time
/// part.
pub open spec fn renderer_has(fields: DateFields, with_time: bool) -> bool {
    match fields {
        DateFields::ME | DateFields::YME => false,
        DateFields::Y | DateFields::M | DateFields::YM => !with_time,
        _ => true,
    }
}

impl FieldSet {
    /// The field set that the renderer is handed: date fields that it has,
    /// and, where both parts are present, one length for both, that of the
    /// date part. The parts present are the same.
    pub open spec fn renderable(self) -> FieldSet {
        FieldSet {
            date: match self.date {
                Some(date) => Some(
                    DatePart {
                        fields: renderable_fields(date.fields, self.time is Some),
                        length: date.length,
                    },
                ),
                None => None,
            },
            time: match self.time {
                Some(time) => Some(
                    TimePart {
                        precision: time.precision,
                        length: match self.date {
                            Some(date) => date.length,
                            None => time.length,
                        },
                    },
                ),
                None => None,
            },
        }
    }

    /// Makes the field set that the renderer is handed.
    pub fn to_renderable(&self) -> (set: FieldSet)
        ensures
            set == self.renderable(),
    {
        let with_time = self.time.is_some();
        FieldSet {
            date: match self.date {
                Some(date) => Some(
                    DatePart {
                        fields: match date.fields {
                            DateFields::ME => DateFields::MDE,
                            DateFields::YME => DateFields::YMDE,
                            DateFields::Y => if with_time {
                                DateFields::YMD
                            } else {
                                DateFields::Y
                            },
                            DateFields::M => if with_time {
                                DateFields::MD
                            } else {
                                DateFields::M
                            },
                            DateFields::YM => if with_time {
                                DateFields::YMD
                            } else {
                                DateFields::YM
                            },
                            other => other,
                        },
                        length: date.length,
                    },
                ),
                None => None,
            },
            time: match self.time {
                Some(time) => Some(
                    TimePart {
                        precision: time.precision,
                        length: match self.date {
                            Some(date) => date.length,
                            None => time.length,
                        },
                    },
                ),
                None => None,
            },
        }
    }
}

/// The renderer has every field set that it is handed, and is shown no
/// field less than was selected: the set handed over shows every field of
/// the named set, is the named set itself where the renderer has that, and
/// is handed over unchanged a second time.
pub proof fn law_renderable_fields(fields: DateFields, with_time: bool)
    ensures
        renderer_has(renderable_fields(fields, with_time), with_time),
        renderer_has(fields, with_time) ==> renderable_fields(fields, with_time) == fields,
        renderable_fields(renderable_fields(fields, with_time), with_time) == renderable_fields(
            fields,
            with_time,
        ),
        ({
            let before = date_fields_show(fields);
            let after = date_fields_show(renderable_fields(fields, with_time));
            &&& (before.0 ==> after.0)
            &&& (before.1 ==> after.1)
            &&& (before.2 ==> after.2)
            &&& (before.3 ==> after.3)
        }),
{
}

/// The descriptor of a formatter that takes styles only: a fault where
/// neither style is given.
pub open spec fn styles_resolved(
    date_style: Option<DateStyle>,
    time_style: Option<TimeStyle>,
    calendar: Option<Calendar>,
) -> Result<FormatDescriptor, OptionError> {
    if date_style is None && time_style is None {
        Err(OptionError::MissingStyle)
    } else {
        Ok(
            FormatDescriptor {
                selection: Selection::Styles { date: date_style, time: time_style },
                field_set: style_field_set(date_style, time_style),
                calendar: calendar,
                hour_cycle: None,
            },
        )
    }
}

impl FormatDescriptor {
    /// Builds the descriptor of a formatter that takes styles only; at
    /// least one of the two styles must be given.
    pub fn from_styles(
        date_style: Option<DateStyle>,
        time_style: Option<TimeStyle>,
        calendar: Option<Calendar>,
    ) -> (descriptor: Result<FormatDescriptor, OptionError>)
        ensures
            descriptor == styles_resolved(date_style, time_style, calendar),
    {
        if date_style.is_none() && time_style.is_none() {
            return Err(OptionError::MissingStyle);
        }
        Ok(
            FormatDescriptor {
                selection: Selection::Styles { date: date_style, time: time_style },
                field_set: create_field_set(date_style, time_style),
                calendar,
                hour_cycle: None,
            },
        )
    }

    /// The date style as the resolved options show it.
    pub fn date_style(&self) -> (style: Option<DateStyle>)
        ensures
            style == match self.selection {
                Selection::Styles { date, time } => date,
                Selection::Components(_) => None,
            },
    {
        match self.selection {
            Selection::Styles { date, time } => date,
            Selection::Components(_) => None,
        }
    }

    /// The time style as the resolved options show it.
    pub fn time_style(&self) -> (style: Option<TimeStyle>)
        ensures
            style == match self.selection {
                Selection::Styles { date, time } => time,
                Selection::Components(_) => None,
            },
    {
        match self.selection {
            Selection::Styles { date, time } => time,
            Selection::Components(_) => None,
        }
    }
}

/// A descriptor built from styles is the one that the same styles resolve
/// to as options.
pub proof fn law_styles_agree(
    date_style: Option<DateStyle>,
    time_style: Option<TimeStyle>,
    calendar: Option<Calendar>,
)
    requires
        date_style is Some || time_style is Some,
    ensures
        styles_resolved(date_style, time_style, calendar) == (DateTimeOptions {
            date_style: date_style,
            time_style: time_style,
            components: ComponentMatrix::spec_empty(),
            calendar: calendar,
            hour_cycle: None,
        }).resolved(),
{
}

/// Resolving is a function of the options alone: equal options give equal
/// descriptors, field for field.
pub proof fn law_resolution_deterministic(a: DateTimeOptions, b: DateTimeOptions)
    requires
        a == b,
    ensures
        a.resolved() == b.resolved(),
{
}

/// A style key together with a component key is always refused.
pub proof fn law_styles_exclude_components(options: DateTimeOptions)
    requires
        options.has_style(),
        options.has_component(),
    ensures
        options.resolved() == Err::<FormatDescriptor, OptionError>(
            OptionError::StyleWithComponents,
        ),
{
}

/// Every other option set resolves, and the descriptor never holds both a
/// style and a component.
pub proof fn law_resolution_total(options: DateTimeOptions)
    requires
        !(options.has_style() && options.has_component()),
    ensures
        options.resolved() is Ok,
        match options.resolved()->Ok_0.selection {
            Selection::Styles { date, time } => (date is Some || time is Some)
                && date == options.date_style && time == options.time_style,
            Selection::Components(matrix) => matrix.any(),
        },
        options.resolved()->Ok_0.field_set.date is Some || options.resolved()->Ok_0.field_set.time
            is Some,
{
}

/// The decision table is total and never drops a field: the set selected
/// shows every field that is present, and no date part is selected exactly
/// when no field is present. It shows a field that is absent in three cases
/// only, all with a year and no month: with a day, with a day and a
/// weekday, and with a weekday; there the month is taken in.
pub proof fn law_field_set_table(year: bool, month: bool, day: bool, weekday: bool)
    ensures
        date_fields_for(year, month, day, weekday) is None <==> !year && !month && !day
            && !weekday,
        date_fields_for(year, month, day, weekday) matches Some(fields) ==> {
            let shown = date_fields_show(fields);
            &&& (year ==> shown.0)
            &&& (month ==> shown.1)
            &&& (day ==> shown.2)
            &&& (weekday ==> shown.3)
            &&& if year && !month && (day || weekday) {
                shown == (true, true, day, weekday)
            } else {
                shown == (year, month, day, weekday)
            }
        },
{
}

/// Each named set of date fields is selected by the fields that it shows.
pub proof fn law_field_set_names(fields: DateFields)
    ensures
        ({
            let shown = date_fields_show(fields);
            date_fields_for(shown.0, shown.1, shown.2, shown.3) == Some(fields)
        }),
{
}

/// An option set without style and component keys resolves to the default:
/// year, month and day, all numeric, which select the field set of year,
/// month and day at short length.
pub proof fn law_default_components(options: DateTimeOptions)
    requires
        !options.has_style(),
        !options.has_component(),
    ensures
        options.resolved() == Ok::<FormatDescriptor, OptionError>(
            FormatDescriptor {
                selection: Selection::Components(ComponentMatrix::spec_default()),
                field_set: FieldSet {
                    date: Some(DatePart { fields: DateFields::YMD, length: Length::Short }),
                    time: None,
                },
                calendar: options.calendar,
                hour_cycle: options.hour_cycle,
            },
        ),
{
}

/// Whether the component under `key` may be written in `style`: a month in
/// any style, a weekday as a name only, every other component as a number
/// only.
pub open spec fn component_accepts(key: OptionKey, style: ComponentStyle) -> bool {
    match key {
        OptionKey::Month => true,
        OptionKey::Weekday => is_textual(Some(style)),
        OptionKey::Year | OptionKey::Day | OptionKey::Hour | OptionKey::Minute | OptionKey::Second =>
            !is_textual(Some(style)),
        _ => false,
    }
}

/// The style given for the component under `key`: none where the key is
/// absent, a fault where the value is not a style that the component
/// accepts.
pub open spec fn component_of(entries: Seq<OptionEntry>, key: OptionKey) -> Result<
    Option<ComponentStyle>,
    OptionError,
> {
    match label_of(entries, key) {
        Err(e) => Err(e),
        Ok(None) => Ok(None),
        Ok(Some(label)) => match component_style_label_value(label) {
            Some(style) => if component_accepts(key, style) {
                Ok(Some(style))
            } else {
                Err(OptionError::InvalidValue(key))
            },
            None => Err(OptionError::InvalidValue(key)),
        },
    }
}

/// Says whether the component under `key` may be written in `style`.
pub fn component_style_accepted(key: OptionKey, style: ComponentStyle) -> (accepted: bool)
    ensures
        accepted == component_accepts(key, style),
{
    match key {
        OptionKey::Month => true,
        OptionKey::Weekday => component_is_textual(Some(style)),
        OptionKey::Year | OptionKey::Day | OptionKey::Hour | OptionKey::Minute | OptionKey::Second =>
            !component_is_textual(Some(style)),
        _ => false,
    }
}

/// Reads the style given for the component under `key`.
pub fn read_component(entries: &Vec<OptionEntry>, key: OptionKey) -> (value: Result<
    Option<ComponentStyle>,
    OptionError,
>)
    ensures
        value == component_of(entries@, key),
{
    match get_label(entries, key) {
        Err(e) => Err(e),
        Ok(None) => Ok(None),
        Ok(Some(label)) => match ComponentStyle::from_label(label) {
            Some(style) => {
                if component_style_accepted(key, style) {
                    Ok(Some(style))
                } else {
                    Err(OptionError::InvalidValue(key))
                }
            },
            None => Err(OptionError::InvalidValue(key)),
        },
    }
}

/// The name of the time zone given: none where the key is absent, a fault
/// where its value is no text. The name is carried as it stands; whether it
/// names a zone is for the renderer's caller to say.
pub open spec fn time_zone_of(entries: Seq<OptionEntry>) -> Result<Option<Seq<char>>, OptionError> {
    label_of(entries, OptionKey::TimeZone)
}

/// Reads the name of the time zone given.
pub fn read_time_zone<'a>(entries: &'a Vec<OptionEntry>) -> (zone: Result<
    Option<&'a str>,
    OptionError,
>)
    ensures
        match zone {
            Ok(Some(name)) => time_zone_of(entries@) == Ok::<Option<Seq<char>>, OptionError>(
                Some(name@),
            ),
            Ok(None) => time_zone_of(entries@) == Ok::<Option<Seq<char>>, OptionError>(None),
            Err(e) => time_zone_of(entries@) == Err::<Option<Seq<char>>, OptionError>(e),
        },
{
    get_label(entries, OptionKey::TimeZone)
}

/// The typed options that an option set holds. A key that option sets for
/// dates and times may not hold is reported first, by the index of its first
/// entry; then the first value that its key does not accept, the keys taken
/// in the order date style, time style, year, month, day, weekday, hour,
/// minute, second, time zone, calendar, hour cycle. The time zone is not
/// part of the typed options: it is a free text for the renderer's caller.
pub open spec fn datetime_options_of(entries: Seq<OptionEntry>) -> Result<
    DateTimeOptions,
    OptionError,
> {
    if first_unknown(entries, OptionGroup::DateTime, 0) is Some {
        Err(OptionError::UnknownKey(first_unknown(entries, OptionGroup::DateTime, 0)->0 as usize))
    } else if choice_of::<DateStyle>(entries, OptionKey::DateStyle) is Err {
        Err(choice_of::<DateStyle>(entries, OptionKey::DateStyle)->Err_0)
    } else if choice_of::<TimeStyle>(entries, OptionKey::TimeStyle) is Err {
        Err(choice_of::<TimeStyle>(entries, OptionKey::TimeStyle)->Err_0)
    } else if component_of(entries, OptionKey::Year) is Err {
        Err(component_of(entries, OptionKey::Year)->Err_0)
    } else if component_of(entries, OptionKey::Month) is Err {
        Err(component_of(entries, OptionKey::Month)->Err_0)
    } else if component_of(entries, OptionKey::Day) is Err {
        Err(component_of(entries, OptionKey::Day)->Err_0)
    } else if component_of(entries, OptionKey::Weekday) is Err {
        Err(component_of(entries, OptionKey::Weekday)->Err_0)
    } else if component_of(entries, OptionKey::Hour) is Err {
        Err(component_of(entries, OptionKey::Hour)->Err_0)
    } else if component_of(entries, OptionKey::Minute) is Err {
        Err(component_of(entries, OptionKey::Minute)->Err_0)
    } else if component_of(entries, OptionKey::Second) is Err {
        Err(component_of(entries, OptionKey::Second)->Err_0)
    } else if time_zone_of(entries) is Err {
        Err(time_zone_of(entries)->Err_0)
    } else if choice_of::<Calendar>(entries, OptionKey::Calendar) is Err {
        Err(choice_of::<Calendar>(entries, OptionKey::Calendar)->Err_0)
    } else if choice_of::<HourCycle>(entries, OptionKey::HourCycle) is Err {
        Err(choice_of::<HourCycle>(entries, OptionKey::HourCycle)->Err_0)
    } else {
        Ok(
            DateTimeOptions {
                date_style: choice_of::<DateStyle>(entries, OptionKey::DateStyle)->Ok_0,
                time_style: choice_of::<TimeStyle>(entries, OptionKey::TimeStyle)->Ok_0,
                components: ComponentMatrix {
                    year: component_of(entries, OptionKey::Year)->Ok_0,
                    month: component_of(entries, OptionKey::Month)->Ok_0,
                    day: component_of(entries, OptionKey::Day)->Ok_0,
                    weekday: component_of(entries, OptionKey::Weekday)->Ok_0,
                    hour: component_of(entries, OptionKey::Hour)->Ok_0,
                    minute: component_of(entries, OptionKey::Minute)->Ok_0,
                    second: component_of(entries, OptionKey::Second)->Ok_0,
                },
                calendar: choice_of::<Calendar>(entries, OptionKey::Calendar)->Ok_0,
                hour_cycle: choice_of::<HourCycle>(entries, OptionKey::HourCycle)->Ok_0,
            },
        )
    }
}

/// The descriptor that an option set resolves to.
pub open spec fn datetime_resolved(entries: Seq<OptionEntry>) -> Result<
    FormatDescriptor,
    OptionError,
> {
    match datetime_options_of(entries) {
        Err(e) => Err(e),
        Ok(options) => options.resolved(),
    }
}

/// Reads the typed options out of an option set.
pub fn parse_datetime_options(entries: &Vec<OptionEntry>) -> (options: Result<
    DateTimeOptions,
    OptionError,
>)
    ensures
        options == datetime_options_of(entries@),
{
    match find_unknown(entries, OptionGroup::DateTime) {
        Some(i) => {
            return Err(OptionError::UnknownKey(i));
        },
        None => {},
    }
    let date_style = match read_choice::<DateStyle>(entries, OptionKey::DateStyle) {
        Ok(value) => value,
        Err(e) => {
            return Err(e);
        },
    };
    let time_style = match read_choice::<TimeStyle>(entries, OptionKey::TimeStyle) {
        Ok(value) => value,
        Err(e) => {
            return Err(e);
        },
    };
    let year = match read_component(entries, OptionKey::Year) {
        Ok(value) => value,
        Err(e) => {
            return Err(e);
        },
    };
    let month = match read_component(entries, OptionKey::Month) {
        Ok(value) => value,
        Err(e) => {
            return Err(e);
        },
    };
    let day = match read_component(entries, OptionKey::Day) {
        Ok(value) => value,
        Err(e) => {
            return Err(e);
        },
    };
    let weekday = match read_component(entries, OptionKey::Weekday) {
        Ok(value) => value,
        Err(e) => {
            return Err(e);
        },
    };
    let hour = match read_component(entries, OptionKey::Hour) {
        Ok(value) => value,
        Err(e) => {
            return Err(e);
        },
    };
    let minute = match read_component(entries, OptionKey::Minute) {
        Ok(value) => value,
        Err(e) => {
            return Err(e);
        },
    };
    let second = match read_component(entries, OptionKey::Second) {
        Ok(value) => value,
        Err(e) => {
            return Err(e);
        },
    };
    match read_time_zone(entries) {
        Ok(_) => {},
        Err(e) => {
            return Err(e);
        },
    }
    let calendar = match read_choice::<Calendar>(entries, OptionKey::Calendar) {
        Ok(value) => value,
        Err(e) => {
            return Err(e);
        },
    };
    let hour_cycle = match read_choice::<HourCycle>(entries, OptionKey::HourCycle) {
        Ok(value) => value,
        Err(e) => {
            return Err(e);
        },
    };
    Ok(
        DateTimeOptions {
            date_style,
            time_style,
            components: ComponentMatrix { year, month, day, weekday, hour, minute, second },
            calendar,
            hour_cycle,
        },
    )
}

/// Resolves an option set for dates and times to the canonical descriptor.
pub fn resolve_datetime(entries: &Vec<OptionEntry>) -> (descriptor: Result<
    FormatDescriptor,
    OptionError,
>)
    ensures
        descriptor == datetime_resolved(entries@),
{
    match parse_datetime_options(entries) {
        Err(e) => Err(e),
        Ok(options) => options.resolve(),
    }
}

/// Resolves an option set for dates and times to the canonical descriptor
/// and hands out the name of the time zone beside it, as it was given.
pub fn resolve_datetime_with_zone(entries: &Vec<OptionEntry>) -> (resolved: Result<
    (FormatDescriptor, Option<String>),
    OptionError,
>)
    ensures
        match resolved {
            Ok((descriptor, zone)) => datetime_resolved(entries@) == Ok::<
                FormatDescriptor,
                OptionError,
            >(descriptor) && time_zone_of(entries@) == Ok::<Option<Seq<char>>, OptionError>(
                match zone {
                    Some(name) => Some(name@),
                    None => None,
                },
            ),
            Err(e) => datetime_resolved(entries@) == Err::<FormatDescriptor, OptionError>(e),
        },
{
    let descriptor = match resolve_datetime(entries) {
        Ok(descriptor) => descriptor,
        Err(e) => {
            return Err(e);
        },
    };
    match read_time_zone(entries) {
        Ok(Some(name)) => Ok((descriptor, Some(String::from_str(name)))),
        Ok(None) => Ok((descriptor, None)),
        Err(e) => {
            proof {
                assert(datetime_options_of(entries@) is Err);
            }
            Err(e)
        },
    }
}

/// Resolving depends on nothing but the keys and values of the option set:
/// two option sets that hold the same resolve to the same descriptor or to
/// the same fault.
pub proof fn law_resolution_by_content(a: Seq<OptionEntry>, b: Seq<OptionEntry>)
    requires
        same_entries(a, b),
    ensures
        datetime_options_of(a) == datetime_options_of(b),
        datetime_resolved(a) == datetime_resolved(b),
{
    assert(first_unknown(a, OptionGroup::DateTime, 0) == first_unknown(
        b,
        OptionGroup::DateTime,
        0,
    )) by {
        lemma_same_unknown(a, b, OptionGroup::DateTime, 0);
    }
    assert(choice_of::<DateStyle>(a, OptionKey::DateStyle) == choice_of::<DateStyle>(
        b,
        OptionKey::DateStyle,
    )) by {
        lemma_same_lookup(a, b, OptionKey::DateStyle);
    }
    assert(choice_of::<TimeStyle>(a, OptionKey::TimeStyle) == choice_of::<TimeStyle>(
        b,
        OptionKey::TimeStyle,
    )) by {
        lemma_same_lookup(a, b, OptionKey::TimeStyle);
    }
    assert(choice_of::<Calendar>(a, OptionKey::Calendar) == choice_of::<Calendar>(
        b,
        OptionKey::Calendar,
    )) by {
        lemma_same_lookup(a, b, OptionKey::Calendar);
    }
    assert(choice_of::<HourCycle>(a, OptionKey::HourCycle) == choice_of::<HourCycle>(
        b,
        OptionKey::HourCycle,
    )) by {
        lemma_same_lookup(a, b, OptionKey::HourCycle);
    }
    assert(time_zone_of(a) == time_zone_of(b)) by {
        lemma_same_lookup(a, b, OptionKey::TimeZone);
    }
    assert forall|key: OptionKey| #[trigger] component_of(a, key) == component_of(b, key) by {
        lemma_same_lookup(a, b, key);
    }
}

/// An option set with no entry resolves to the default: year, month and
/// day, all numeric.
pub proof fn law_empty_option_set(entries: Seq<OptionEntry>)
    requires
        entries.len() == 0,
    ensures
        datetime_resolved(entries) == Ok::<FormatDescriptor, OptionError>(
            FormatDescriptor {
                selection: Selection::Components(ComponentMatrix::spec_default()),
                field_set: FieldSet {
                    date: Some(DatePart { fields: DateFields::YMD, length: Length::Short }),
                    time: None,
                },
                calendar: None,
                hour_cycle: None,
            },
        ),
{
}

/// An option set with an entry under a style key and an entry under a
/// component key never resolves.
pub proof fn law_style_and_component_keys(entries: Seq<OptionEntry>)
    requires
        present(entries, OptionKey::DateStyle) || present(entries, OptionKey::TimeStyle),
        present(entries, OptionKey::Year) || present(entries, OptionKey::Month) || present(
            entries,
            OptionKey::Day,
        ) || present(entries, OptionKey::Weekday) || present(entries, OptionKey::Hour) || present(
            entries,
            OptionKey::Minute,
        ) || present(entries, OptionKey::Second),
    ensures
        datetime_resolved(entries) is Err,
{
}

} // verus!
