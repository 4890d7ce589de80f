//! Option keys, the errors of option validation, and text comparison.

use vstd::prelude::*;
use vstd::string::*;

verus! {

/// Whether two texts hold the same characters.
pub fn text_eq(a: &str, b: &str) -> (same: bool)
    ensures
        same == (a@ == b@),
{
    let n = a.unicode_len();
    if n != b.unicode_len() {
        return false;
    }
    let mut i: usize = 0;
    while i < n
        invariant
            0 <= i <= n,
            n == a@.len(),
            n == b@.len(),
            a@.take(i as int) == b@.take(i as int),
        decreases n - i,
    {
        if a.get_char(i) != b.get_char(i) {
            return false;
        }
        proof {
            assert(a@.take(i + 1) =~= a@.take(i as int).push(a@[i as int]));
            assert(b@.take(i + 1) =~= b@.take(i as int).push(b@[i as int]));
        }
        i += 1;
    }
    proof {
        assert(a@.take(n as int) =~= a@);
        assert(b@.take(n as int) =~= b@);
    }
    true
}

/// The keys that an option set may hold.
#[derive(Clone, Copy, PartialEq, Eq, Structural, Debug)]
pub enum OptionKey {
    DateStyle,
    TimeStyle,
    Year,
    Month,
    Day,
    Weekday,
    Hour,
    Minute,
    Second,
    Calendar,
    HourCycle,
    TimeZone,
    Style,
    Currency,
    UseGrouping,
    MinimumIntegerDigits,
    MinimumFractionDigits,
    MaximumFractionDigits,
    RoundingMode,
    Type,
    Fallback,
    Granularity,
    Sensitivity,
    Numeric,
    CaseFirst,
}

/// The name of each key.
pub open spec fn key_name(key: OptionKey) -> Seq<char> {
    match key {
        OptionKey::DateStyle => "date_style"@,
        OptionKey::TimeStyle => "time_style"@,
        OptionKey::Year => "year"@,
        OptionKey::Month => "month"@,
        OptionKey::Day => "day"@,
        OptionKey::Weekday => "weekday"@,
        OptionKey::Hour => "hour"@,
        OptionKey::Minute => "minute"@,
        OptionKey::Second => "second"@,
        OptionKey::Calendar => "calendar"@,
        OptionKey::HourCycle => "hour_cycle"@,
        OptionKey::TimeZone => "time_zone"@,
        OptionKey::Style => "style"@,
        OptionKey::Currency => "currency"@,
        OptionKey::UseGrouping => "use_grouping"@,
        OptionKey::MinimumIntegerDigits => "minimum_integer_digits"@,
        OptionKey::MinimumFractionDigits => "minimum_fraction_digits"@,
        OptionKey::MaximumFractionDigits => "maximum_fraction_digits"@,
        OptionKey::RoundingMode => "rounding_mode"@,
        OptionKey::Type => "type"@,
        OptionKey::Fallback => "fallback"@,
        OptionKey::Granularity => "granularity"@,
        OptionKey::Sensitivity => "sensitivity"@,
        OptionKey::Numeric => "numeric"@,
        OptionKey::CaseFirst => "case_first"@,
    }
}

/// The key that a name stands for, if any: the first whose name it is.
pub open spec fn key_named(name: Seq<char>) -> Option<OptionKey> {
    if name == "date_style"@ {
        Some(OptionKey::DateStyle)
    } else if name == "time_style"@ {
        Some(OptionKey::TimeStyle)
    } else if name == "year"@ {
        Some(OptionKey::Year)
    } else if name == "month"@ {
        Some(OptionKey::Month)
    } else if name == "day"@ {
        Some(OptionKey::Day)
    } else if name == "weekday"@ {
        Some(OptionKey::Weekday)
    } else if name == "hour"@ {
        Some(OptionKey::Hour)
    } else if name == "minute"@ {
        Some(OptionKey::Minute)
    } else if name == "second"@ {
        Some(OptionKey::Second)
    } else if name == "calendar"@ {
        Some(OptionKey::Calendar)
    } else if name == "hour_cycle"@ {
        Some(OptionKey::HourCycle)
    } else if name == "time_zone"@ {
        Some(OptionKey::TimeZone)
    } else if name == "style"@ {
        Some(OptionKey::Style)
    } else if name == "currency"@ {
        Some(OptionKey::Currency)
    } else if name == "use_grouping"@ {
        Some(OptionKey::UseGrouping)
    } else if name == "minimum_integer_digits"@ {
        Some(OptionKey::MinimumIntegerDigits)
    } else if name == "minimum_fraction_digits"@ {
        Some(OptionKey::MinimumFractionDigits)
    } else if name == "maximum_fraction_digits"@ {
        Some(OptionKey::MaximumFractionDigits)
    } else if name == "rounding_mode"@ {
        Some(OptionKey::RoundingMode)
    } else if name == "type"@ {
        Some(OptionKey::Type)
    } else if name == "fallback"@ {
        Some(OptionKey::Fallback)
    } else if name == "granularity"@ {
        Some(OptionKey::Granularity)
    } else if name == "sensitivity"@ {
        Some(OptionKey::Sensitivity)
    } else if name == "numeric"@ {
        Some(OptionKey::Numeric)
    } else if name == "case_first"@ {
        Some(OptionKey::CaseFirst)
    } else {
        None
    }
}

/// The names are a two-way table: each key is the one that its own name
/// stands for.
pub proof fn law_key_names(key: OptionKey)
    ensures
        key_named(key_name(key)) == Some(key),
{
    reveal_strlit("date_style");
    reveal_strlit("time_style");
    reveal_strlit("year");
    reveal_strlit("month");
    reveal_strlit("day");
    reveal_strlit("weekday");
    reveal_strlit("hour");
    reveal_strlit("minute");
    reveal_strlit("second");
    reveal_strlit("calendar");
    reveal_strlit("hour_cycle");
    reveal_strlit("time_zone");
    reveal_strlit("style");
    reveal_strlit("currency");
    reveal_strlit("use_grouping");
    reveal_strlit("minimum_integer_digits");
    reveal_strlit("minimum_fraction_digits");
    reveal_strlit("maximum_fraction_digits");
    reveal_strlit("rounding_mode");
    reveal_strlit("type");
    reveal_strlit("fallback");
    reveal_strlit("granularity");
    reveal_strlit("sensitivity");
    reveal_strlit("numeric");
    reveal_strlit("case_first");
    assert("date_style"@.len() == 10 && "time_style"@.len() == 10 && "year"@.len() == 4 && "month"@.len() == 5 && "day"@.len() == 3 && "weekday"@.len() == 7 && "hour"@.len() == 4 && "minute"@.len() == 6 && "second"@.len() == 6 && "calendar"@.len() == 8 && "hour_cycle"@.len() == 10 && "time_zone"@.len() == 9 && "style"@.len() == 5 && "currency"@.len() == 8 && "use_grouping"@.len() == 12 && "minimum_integer_digits"@.len() == 22 && "minimum_fraction_digits"@.len() == 23 && "maximum_fraction_digits"@.len() == 23 && "rounding_mode"@.len() == 13 && "type"@.len() == 4 && "fallback"@.len() == 8 && "granularity"@.len() == 11 && "sensitivity"@.len() == 11 && "numeric"@.len() == 7 && "case_first"@.len() == 10);
    assert("date_style"@[0] == 'd' && "time_style"@[0] == 't' && "hour_cycle"@[0] == 'h' && "case_first"@[0] == 'c' && "year"@[0] == 'y' && "hour"@[0] == 'h' && "type"@[0] == 't' && "month"@[0] == 'm' && "style"@[0] == 's' && "weekday"@[0] == 'w' && "numeric"@[0] == 'n' && "minute"@[0] == 'm' && "second"@[0] == 's' && "calendar"@[1] == 'a' && "currency"@[1] == 'u' && "calendar"@[0] == 'c' && "fallback"@[0] == 'f' && "currency"@[0] == 'c' && "minimum_fraction_digits"@[1] == 'i' && "maximum_fraction_digits"@[1] == 'a' && "granularity"@[0] == 'g' && "sensitivity"@[0] == 's');
}

impl OptionKey {
    /// The name under which this key stands in an option set.
    pub fn name(self) -> (name: &'static str)
        ensures
            name@ == key_name(self),
    {
        match self {
            OptionKey::DateStyle => "date_style",
            OptionKey::TimeStyle => "time_style",
            OptionKey::Year => "year",
            OptionKey::Month => "month",
            OptionKey::Day => "day",
            OptionKey::Weekday => "weekday",
            OptionKey::Hour => "hour",
            OptionKey::Minute => "minute",
            OptionKey::Second => "second",
            OptionKey::Calendar => "calendar",
            OptionKey::HourCycle => "hour_cycle",
            OptionKey::TimeZone => "time_zone",
            OptionKey::Style => "style",
            OptionKey::Currency => "currency",
            OptionKey::UseGrouping => "use_grouping",
            OptionKey::MinimumIntegerDigits => "minimum_integer_digits",
            OptionKey::MinimumFractionDigits => "minimum_fraction_digits",
            OptionKey::MaximumFractionDigits => "maximum_fraction_digits",
            OptionKey::RoundingMode => "rounding_mode",
            OptionKey::Type => "type",
            OptionKey::Fallback => "fallback",
            OptionKey::Granularity => "granularity",
            OptionKey::Sensitivity => "sensitivity",
            OptionKey::Numeric => "numeric",
            OptionKey::CaseFirst => "case_first",
        }
    }

    /// The key that `name` stands for.
    pub fn from_name(name: &str) -> (key: Option<OptionKey>)
        ensures
            key == key_named(name@),
    {
        if text_eq(name, "date_style") {
            Some(OptionKey::DateStyle)
        } else if text_eq(name, "time_style") {
            Some(OptionKey::TimeStyle)
        } else if text_eq(name, "year") {
            Some(OptionKey::Year)
        } else if text_eq(name, "month") {
            Some(OptionKey::Month)
        } else if text_eq(name, "day") {
            Some(OptionKey::Day)
        } else if text_eq(name, "weekday") {
            Some(OptionKey::Weekday)
        } else if text_eq(name, "hour") {
            Some(OptionKey::Hour)
        } else if text_eq(name, "minute") {
            Some(OptionKey::Minute)
        } else if text_eq(name, "second") {
            Some(OptionKey::Second)
        } else if text_eq(name, "calendar") {
            Some(OptionKey::Calendar)
        } else if text_eq(name, "hour_cycle") {
            Some(OptionKey::HourCycle)
        } else if text_eq(name, "time_zone") {
            Some(OptionKey::TimeZone)
        } else if text_eq(name, "style") {
            Some(OptionKey::Style)
        } else if text_eq(name, "currency") {
            Some(OptionKey::Currency)
        } else if text_eq(name, "use_grouping") {
            Some(OptionKey::UseGrouping)
        } else if text_eq(name, "minimum_integer_digits") {
            Some(OptionKey::MinimumIntegerDigits)
        } else if text_eq(name, "minimum_fraction_digits") {
            Some(OptionKey::MinimumFractionDigits)
        } else if text_eq(name, "maximum_fraction_digits") {
            Some(OptionKey::MaximumFractionDigits)
        } else if text_eq(name, "rounding_mode") {
            Some(OptionKey::RoundingMode)
        } else if text_eq(name, "type") {
            Some(OptionKey::Type)
        } else if text_eq(name, "fallback") {
            Some(OptionKey::Fallback)
        } else if text_eq(name, "granularity") {
            Some(OptionKey::Granularity)
        } else if text_eq(name, "sensitivity") {
            Some(OptionKey::Sensitivity)
        } else if text_eq(name, "numeric") {
            Some(OptionKey::Numeric)
        } else if text_eq(name, "case_first") {
            Some(OptionKey::CaseFirst)
        } else {
            None
        }
    }
}
/// Why an option set was refused.
#[derive(Clone, Copy, PartialEq, Eq, Structural, Debug)]
pub enum OptionError {
    /// The entry at this index has a key that is not recognised.
    UnknownKey(usize),
    /// The value of this key is not one of its accepted values.
    InvalidValue(OptionKey),
    /// The count under this key is negative.
    Negative(OptionKey),
    /// The count under this key is above the largest count accepted.
    TooLarge(OptionKey),
    /// The minimum number of fraction digits is above the maximum.
    FractionRange,
    /// This key must be given and is absent.
    MissingKey(OptionKey),
    /// The currency style was chosen without a currency.
    MissingCurrency,
    /// A style key and a component key were both given.
    StyleWithComponents,
    /// Neither a date style nor a time style was given where one is needed.
    MissingStyle,
    /// The label names no unit of relative time.
    InvalidUnit,
}

/// The value of one option.
pub enum OptionValue {
    /// One of an enumeration's labels, or a free text.
    Label(String),
    /// A count.
    Count(i64),
    /// A switch.
    Flag(bool),
}

/// One entry of an option set.
pub struct OptionEntry {
    pub key: String,
    pub value: OptionValue,
}

/// The index of the first entry at or after `from` that stands under `key`.
pub open spec fn position(entries: Seq<OptionEntry>, key: OptionKey, from: int) -> Option<int>
    decreases entries.len() - from,
{
    if from < 0 || from >= entries.len() {
        None
    } else if key_named(entries[from].key@) == Some(key) {
        Some(from)
    } else {
        position(entries, key, from + 1)
    }
}

/// Whether an entry stands under `key`.
pub open spec fn present(entries: Seq<OptionEntry>, key: OptionKey) -> bool {
    position(entries, key, 0) is Some
}

/// The label given under `key`: none where the key is absent, a fault where
/// its value is no label. Of several entries under one key the first counts.
pub open spec fn label_of(entries: Seq<OptionEntry>, key: OptionKey) -> Result<
    Option<Seq<char>>,
    OptionError,
> {
    match position(entries, key, 0) {
        None => Ok(None),
        Some(i) => match entries[i].value {
            OptionValue::Label(s) => Ok(Some(s@)),
            _ => Err(OptionError::InvalidValue(key)),
        },
    }
}

/// The count given under `key`: none where the key is absent, a fault where
/// its value is no count.
pub open spec fn count_of(entries: Seq<OptionEntry>, key: OptionKey) -> Result<
    Option<i64>,
    OptionError,
> {
    match position(entries, key, 0) {
        None => Ok(None),
        Some(i) => match entries[i].value {
            OptionValue::Count(n) => Ok(Some(n)),
            _ => Err(OptionError::InvalidValue(key)),
        },
    }
}

/// The switch given under `key`: none where the key is absent, a fault
/// where its value is no switch.
pub open spec fn flag_of(entries: Seq<OptionEntry>, key: OptionKey) -> Result<
    Option<bool>,
    OptionError,
> {
    match position(entries, key, 0) {
        None => Ok(None),
        Some(i) => match entries[i].value {
            OptionValue::Flag(b) => Ok(Some(b)),
            _ => Err(OptionError::InvalidValue(key)),
        },
    }
}

/// Finds the first entry that stands under `key`.
pub fn find(entries: &Vec<OptionEntry>, key: OptionKey) -> (found: Option<usize>)
    ensures
        match found {
            Some(i) => position(entries@, key, 0) == Some(i as int) && i < entries.len(),
            None => position(entries@, key, 0) is None,
        },
{
    let mut i: usize = 0;
    while i < entries.len()
        invariant
            0 <= i <= entries.len(),
            position(entries@, key, 0) == position(entries@, key, i as int),
        decreases entries.len() - i,
    {
        match OptionKey::from_name(entries[i].key.as_str()) {
            Some(k) => {
                if k == key {
                    return Some(i);
                }
            },
            None => {},
        }
        i += 1;
    }
    None
}

/// Reads the label given under `key`.
pub fn get_label<'a>(entries: &'a Vec<OptionEntry>, key: OptionKey) -> (label: Result<
    Option<&'a str>,
    OptionError,
>)
    ensures
        match label {
            Ok(Some(s)) => label_of(entries@, key) == Ok::<Option<Seq<char>>, OptionError>(
                Some(s@),
            ),
            Ok(None) => label_of(entries@, key) == Ok::<Option<Seq<char>>, OptionError>(None),
            Err(e) => label_of(entries@, key) == Err::<Option<Seq<char>>, OptionError>(e),
        },
{
    match find(entries, key) {
        None => Ok(None),
        Some(i) => match &entries[i].value {
            OptionValue::Label(s) => Ok(Some(s.as_str())),
            _ => Err(OptionError::InvalidValue(key)),
        },
    }
}

/// Reads the count given under `key`.
pub fn get_count(entries: &Vec<OptionEntry>, key: OptionKey) -> (count: Result<
    Option<i64>,
    OptionError,
>)
    ensures
        count == count_of(entries@, key),
{
    match find(entries, key) {
        None => Ok(None),
        Some(i) => match &entries[i].value {
            OptionValue::Count(n) => Ok(Some(*n)),
            _ => Err(OptionError::InvalidValue(key)),
        },
    }
}

/// Reads the switch given under `key`.
pub fn get_flag(entries: &Vec<OptionEntry>, key: OptionKey) -> (flag: Result<
    Option<bool>,
    OptionError,
>)
    ensures
        flag == flag_of(entries@, key),
{
    match find(entries, key) {
        None => Ok(None),
        Some(i) => match &entries[i].value {
            OptionValue::Flag(b) => Ok(Some(*b)),
            _ => Err(OptionError::InvalidValue(key)),
        },
    }
}

/// The formatter kinds, each with the keys that its option sets may hold.
#[derive(Clone, Copy, PartialEq, Eq, Structural, Debug)]
pub enum OptionGroup {
    DateTime,
    Number,
    DisplayNames,
    Segmenter,
    Collator,
    List,
    Duration,
    RelativeTime,
    PluralRules,
}

/// Whether option sets of `group` may hold `key`.
pub open spec fn group_accepts(group: OptionGroup, key: OptionKey) -> bool {
    match group {
        OptionGroup::DateTime => match key {
            OptionKey::DateStyle
            | OptionKey::TimeStyle
            | OptionKey::Year
            | OptionKey::Month
            | OptionKey::Day
            | OptionKey::Weekday
            | OptionKey::Hour
            | OptionKey::Minute
            | OptionKey::Second
            | OptionKey::Calendar
            | OptionKey::HourCycle
            | OptionKey::TimeZone => true,
            _ => false,
        },
        OptionGroup::Number => match key {
            OptionKey::Style
            | OptionKey::Currency
            | OptionKey::UseGrouping
            | OptionKey::MinimumIntegerDigits
            | OptionKey::MinimumFractionDigits
            | OptionKey::MaximumFractionDigits
            | OptionKey::RoundingMode => true,
            _ => false,
        },
        OptionGroup::DisplayNames => match key {
            OptionKey::Type | OptionKey::Style | OptionKey::Fallback => true,
            _ => false,
        },
        OptionGroup::Segmenter => key == OptionKey::Granularity,
        OptionGroup::Collator => match key {
            OptionKey::Sensitivity | OptionKey::Numeric | OptionKey::CaseFirst => true,
            _ => false,
        },
        OptionGroup::List => match key {
            OptionKey::Type | OptionKey::Style => true,
            _ => false,
        },
        OptionGroup::Duration => key == OptionKey::Style,
        OptionGroup::RelativeTime => match key {
            OptionKey::Style | OptionKey::Numeric => true,
            _ => false,
        },
        OptionGroup::PluralRules => key == OptionKey::Type,
    }
}

/// Whether an entry's key is one that option sets of `group` may hold.
pub open spec fn entry_known(entry: OptionEntry, group: OptionGroup) -> bool {
    key_named(entry.key@) matches Some(key) && group_accepts(group, key)
}

/// The index of the first entry at or after `from` whose key option sets of
/// `group` may not hold.
pub open spec fn first_unknown(entries: Seq<OptionEntry>, group: OptionGroup, from: int) -> Option<
    int,
>
    decreases entries.len() - from,
{
    if from < 0 || from >= entries.len() {
        None
    } else if !entry_known(entries[from], group) {
        Some(from)
    } else {
        first_unknown(entries, group, from + 1)
    }
}

impl OptionGroup {
    /// Says whether option sets of this group may hold `key`.
    pub fn accepts(self, key: OptionKey) -> (accepted: bool)
        ensures
            accepted == group_accepts(self, key),
    {
        match self {
            OptionGroup::DateTime => match key {
                OptionKey::DateStyle
                | OptionKey::TimeStyle
                | OptionKey::Year
                | OptionKey::Month
                | OptionKey::Day
                | OptionKey::Weekday
                | OptionKey::Hour
                | OptionKey::Minute
                | OptionKey::Second
                | OptionKey::Calendar
                | OptionKey::HourCycle
                | OptionKey::TimeZone => true,
                _ => false,
            },
            OptionGroup::Number => match key {
                OptionKey::Style
                | OptionKey::Currency
                | OptionKey::UseGrouping
                | OptionKey::MinimumIntegerDigits
                | OptionKey::MinimumFractionDigits
                | OptionKey::MaximumFractionDigits
                | OptionKey::RoundingMode => true,
                _ => false,
            },
            OptionGroup::DisplayNames => match key {
                OptionKey::Type | OptionKey::Style | OptionKey::Fallback => true,
                _ => false,
            },
            OptionGroup::Segmenter => key == OptionKey::Granularity,
            OptionGroup::Collator => match key {
                OptionKey::Sensitivity | OptionKey::Numeric | OptionKey::CaseFirst => true,
                _ => false,
            },
            OptionGroup::List => match key {
                OptionKey::Type | OptionKey::Style => true,
                _ => false,
            },
            OptionGroup::Duration => key == OptionKey::Style,
            OptionGroup::RelativeTime => match key {
                OptionKey::Style | OptionKey::Numeric => true,
                _ => false,
            },
            OptionGroup::PluralRules => key == OptionKey::Type,
        }
    }
}

/// Finds the first entry whose key option sets of `group` may not hold.
pub fn find_unknown(entries: &Vec<OptionEntry>, group: OptionGroup) -> (found: Option<usize>)
    ensures
        match found {
            Some(i) => first_unknown(entries@, group, 0) == Some(i as int) && i < entries.len(),
            None => first_unknown(entries@, group, 0) is None,
        },
{
    let mut i: usize = 0;
    while i < entries.len()
        invariant
            0 <= i <= entries.len(),
            first_unknown(entries@, group, 0) == first_unknown(entries@, group, i as int),
        decreases entries.len() - i,
    {
        let known = match OptionKey::from_name(entries[i].key.as_str()) {
            Some(key) => group.accepts(key),
            None => false,
        };
        if !known {
            return Some(i);
        }
        i += 1;
    }
    None
}

/// Whether two values hold the same: the same text, count or switch.
pub open spec fn same_value(a: OptionValue, b: OptionValue) -> bool {
    match (a, b) {
        (OptionValue::Label(x), OptionValue::Label(y)) => x@ == y@,
        (OptionValue::Count(x), OptionValue::Count(y)) => x == y,
        (OptionValue::Flag(x), OptionValue::Flag(y)) => x == y,
        _ => false,
    }
}

/// Whether two option sets hold the same keys and values, entry by entry.
pub open spec fn same_entries(a: Seq<OptionEntry>, b: Seq<OptionEntry>) -> bool {
    &&& a.len() == b.len()
    &&& forall|i: int|
        0 <= i < a.len() ==> (#[trigger] a[i]).key@ == b[i].key@ && same_value(
            a[i].value,
            b[i].value,
        )
}

/// Option sets that hold the same have each key at the same place.
pub proof fn lemma_same_position(
    a: Seq<OptionEntry>,
    b: Seq<OptionEntry>,
    key: OptionKey,
    from: int,
)
    requires
        same_entries(a, b),
    ensures
        position(a, key, from) == position(b, key, from),
    decreases a.len() - from,
{
    if 0 <= from < a.len() {
        assert(a[from].key@ == b[from].key@);
        lemma_same_position(a, b, key, from + 1);
    }
}

/// Option sets that hold the same give the same label, count and switch
/// under each key.
pub proof fn lemma_same_lookup(a: Seq<OptionEntry>, b: Seq<OptionEntry>, key: OptionKey)
    requires
        same_entries(a, b),
    ensures
        label_of(a, key) == label_of(b, key),
        count_of(a, key) == count_of(b, key),
        flag_of(a, key) == flag_of(b, key),
        present(a, key) == present(b, key),
{
    lemma_same_position(a, b, key, 0);
    match position(a, key, 0) {
        Some(i) => {
            lemma_position_bounds(a, key, 0);
            assert(same_value(a[i].value, b[i].value));
        },
        None => {},
    }
}

/// A place found for a key lies within the option set, at or after the
/// start of the search, and holds that key.
pub proof fn lemma_position_bounds(entries: Seq<OptionEntry>, key: OptionKey, from: int)
    ensures
        position(entries, key, from) matches Some(i) ==> from <= i < entries.len() && key_named(
            entries[i].key@,
        ) == Some(key),
    decreases entries.len() - from,
{
    if 0 <= from < entries.len() {
        lemma_position_bounds(entries, key, from + 1);
    }
}

/// Option sets that hold the same have their first unknown key at the same
/// place.
pub proof fn lemma_same_unknown(
    a: Seq<OptionEntry>,
    b: Seq<OptionEntry>,
    group: OptionGroup,
    from: int,
)
    requires
        same_entries(a, b),
    ensures
        first_unknown(a, group, from) == first_unknown(b, group, from),
    decreases a.len() - from,
{
    if 0 <= from < a.len() {
        assert(a[from].key@ == b[from].key@);
        lemma_same_unknown(a, b, group, from + 1);
    }
}

/// An enumeration whose values are named by labels.
pub trait Labelled: Sized {
    /// The value that a label names, if any.
    spec fn label_value(label: Seq<char>) -> Option<Self>;

    /// The value that `label` names.
    fn from_label(label: &str) -> (value: Option<Self>)
        ensures
            value == Self::label_value(label@),
    ;
}

/// The value of an enumeration given under `key`: none where the key is
/// absent, a fault where the value is not one of the enumeration's labels.
pub open spec fn choice_of<T: Labelled>(entries: Seq<OptionEntry>, key: OptionKey) -> Result<
    Option<T>,
    OptionError,
> {
    match label_of(entries, key) {
        Err(e) => Err(e),
        Ok(None) => Ok(None),
        Ok(Some(label)) => match T::label_value(label) {
            Some(value) => Ok(Some(value)),
            None => Err(OptionError::InvalidValue(key)),
        },
    }
}

/// Reads the value of an enumeration given under `key`.
pub fn read_choice<T: Labelled>(entries: &Vec<OptionEntry>, key: OptionKey) -> (value: Result<
    Option<T>,
    OptionError,
>)
    ensures
        value == choice_of::<T>(entries@, key),
{
    match get_label(entries, key) {
        Err(e) => Err(e),
        Ok(None) => Ok(None),
        Ok(Some(label)) => match T::from_label(label) {
            Some(value) => Ok(Some(value)),
            None => Err(OptionError::InvalidValue(key)),
        },
    }
}

} // verus!
