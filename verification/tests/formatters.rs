use std::cmp::Ordering;

use intl_format::collator::resolve_collator;
use intl_format::collator::CaseFirstOption;
use intl_format::collator::CollatorDescriptor;
use intl_format::collator::Sensitivity;
use intl_format::collator::Strength;
use intl_format::comparison::ordering_number;
use intl_format::data_generator::parse_locales;
use intl_format::data_generator::CoverageLevel;
use intl_format::data_generator::LocaleSpecifier;
use intl_format::data_generator::SpecifierError;
use intl_format::datetime::Calendar;
use intl_format::datetime::DateStyle;
use intl_format::datetime::FormatDescriptor;
use intl_format::datetime::TimeStyle;
use intl_format::display_names::apply_fallback;
use intl_format::display_names::resolve_display_names;
use intl_format::display_names::DisplayNamesDescriptor;
use intl_format::display_names::DisplayNamesFallback;
use intl_format::display_names::DisplayNamesStyle;
use intl_format::display_names::DisplayNamesType;
use intl_format::duration::extract_u64;
use intl_format::duration::resolve_duration;
use intl_format::duration::DurationError;
use intl_format::duration::DurationInput;
use intl_format::duration::DurationStyle;
use intl_format::duration::DurationUnit;
use intl_format::list::resolve_list;
use intl_format::list::ListDescriptor;
use intl_format::list::ListStyle;
use intl_format::list::ListType;
use intl_format::options::find;
use intl_format::options::find_unknown;
use intl_format::options::get_count;
use intl_format::options::get_flag;
use intl_format::options::get_label;
use intl_format::options::text_eq;
use intl_format::options::Labelled;
use intl_format::options::OptionEntry;
use intl_format::options::OptionError;
use intl_format::options::OptionGroup;
use intl_format::options::OptionKey;
use intl_format::options::OptionValue;
use intl_format::parts::Part;
use intl_format::plural::resolve_plural_rules;
use intl_format::plural::PluralCategory;
use intl_format::plural::PluralRuleType;
use intl_format::provider::resolve_provider;
use intl_format::provider::ProviderError;
use intl_format::relative_time::resolve_relative_time;
use intl_format::relative_time::NumericMode;
use intl_format::relative_time::RelativeStyle;
use intl_format::relative_time::RelativeTimeDescriptor;
use intl_format::relative_time::Unit;
use intl_format::relative_time::UNIT_COUNT;
use intl_format::segmenter::resolve_segmenter;
use intl_format::segmenter::segment_ranges;
use intl_format::segmenter::segment_sources;
use intl_format::segmenter::select_data;
use intl_format::segmenter::DataVariant;
use intl_format::segmenter::SegmenterError;
use intl_format::segmenter::Granularity;

fn label(key: &str, value: &str) -> OptionEntry {
    OptionEntry { key: key.to_string(), value: OptionValue::Label(value.to_string()) }
}

fn flag(key: &str, value: bool) -> OptionEntry {
    OptionEntry { key: key.to_string(), value: OptionValue::Flag(value) }
}

#[test]
fn text_comparison_is_exact() {
    assert!(text_eq("", ""));
    assert!(text_eq("half_even", "half_even"));
    assert!(!text_eq("half_even", "half_eveN"));
    assert!(!text_eq("abc", "ab"));
    assert!(!text_eq("ab", "abc"));
    assert!(text_eq("\u{e9}t\u{e9}", "\u{e9}t\u{e9}"));
}

#[test]
fn key_names_round_trip() {
    let keys = [
        (OptionKey::DateStyle, "date_style"),
        (OptionKey::TimeStyle, "time_style"),
        (OptionKey::Year, "year"),
        (OptionKey::Month, "month"),
        (OptionKey::Day, "day"),
        (OptionKey::Weekday, "weekday"),
        (OptionKey::Hour, "hour"),
        (OptionKey::Minute, "minute"),
        (OptionKey::Second, "second"),
        (OptionKey::Calendar, "calendar"),
        (OptionKey::HourCycle, "hour_cycle"),
        (OptionKey::TimeZone, "time_zone"),
        (OptionKey::Style, "style"),
        (OptionKey::Currency, "currency"),
        (OptionKey::UseGrouping, "use_grouping"),
        (OptionKey::MinimumIntegerDigits, "minimum_integer_digits"),
        (OptionKey::MinimumFractionDigits, "minimum_fraction_digits"),
        (OptionKey::MaximumFractionDigits, "maximum_fraction_digits"),
        (OptionKey::RoundingMode, "rounding_mode"),
        (OptionKey::Type, "type"),
        (OptionKey::Fallback, "fallback"),
        (OptionKey::Granularity, "granularity"),
        (OptionKey::Sensitivity, "sensitivity"),
        (OptionKey::Numeric, "numeric"),
        (OptionKey::CaseFirst, "case_first"),
    ];
    for (key, name) in keys {
        assert_eq!(key.name(), name);
        assert_eq!(OptionKey::from_name(name), Some(key));
    }
    assert_eq!(OptionKey::from_name("provider"), None);
    assert_eq!(OptionKey::from_name(""), None);
}

#[test]
fn the_first_entry_of_a_key_counts() {
    let entries = vec![label("style", "short"), flag("numeric", true), label("style", "long")];
    assert_eq!(find(&entries, OptionKey::Style), Some(0));
    assert_eq!(find(&entries, OptionKey::Numeric), Some(1));
    assert_eq!(find(&entries, OptionKey::Type), None);
    assert_eq!(get_label(&entries, OptionKey::Style), Ok(Some("short")));
    assert_eq!(get_label(&entries, OptionKey::Type), Ok(None));
    assert_eq!(get_label(&entries, OptionKey::Numeric), Err(OptionError::InvalidValue(OptionKey::Numeric)));
    assert_eq!(get_flag(&entries, OptionKey::Numeric), Ok(Some(true)));
    assert_eq!(get_flag(&entries, OptionKey::Style), Err(OptionError::InvalidValue(OptionKey::Style)));
    assert_eq!(get_count(&entries, OptionKey::Style), Err(OptionError::InvalidValue(OptionKey::Style)));
    assert_eq!(get_count(&entries, OptionKey::Year), Ok(None));
}

#[test]
fn each_group_accepts_its_own_keys() {
    assert!(OptionGroup::List.accepts(OptionKey::Type));
    assert!(OptionGroup::List.accepts(OptionKey::Style));
    assert!(!OptionGroup::List.accepts(OptionKey::Numeric));
    assert!(OptionGroup::Collator.accepts(OptionKey::CaseFirst));
    assert!(!OptionGroup::Duration.accepts(OptionKey::Type));
    assert!(OptionGroup::Number.accepts(OptionKey::RoundingMode));
    assert!(!OptionGroup::DateTime.accepts(OptionKey::RoundingMode));
    let entries = vec![label("style", "long"), label("type", "unit"), label("numeric", "auto")];
    assert_eq!(find_unknown(&entries, OptionGroup::List), Some(2));
    assert_eq!(find_unknown(&entries, OptionGroup::Duration), Some(1));
    let known = vec![label("style", "long"), label("type", "unit")];
    assert_eq!(find_unknown(&known, OptionGroup::List), None);
}

#[test]
fn list_options_default_to_a_long_conjunction() {
    assert_eq!(
        resolve_list(&Vec::new()),
        Ok(ListDescriptor { list_type: ListType::Conjunction, style: ListStyle::Long })
    );
    assert_eq!(
        resolve_list(&vec![label("type", "disjunction"), label("style", "narrow")]),
        Ok(ListDescriptor { list_type: ListType::Disjunction, style: ListStyle::Narrow })
    );
    assert_eq!(
        resolve_list(&vec![label("type", "sum")]),
        Err(OptionError::InvalidValue(OptionKey::Type))
    );
    assert_eq!(
        resolve_list(&vec![label("style", "digital")]),
        Err(OptionError::InvalidValue(OptionKey::Style))
    );
    assert_eq!(resolve_list(&vec![label("numeric", "auto")]), Err(OptionError::UnknownKey(0)));
    assert_eq!(ListType::Unit.to_symbol_name(), "unit");
    assert_eq!(ListStyle::from_label("short"), Some(ListStyle::Short));
}

#[test]
fn plural_rules_default_to_cardinal() {
    assert_eq!(resolve_plural_rules(&Vec::new()).unwrap().rule_type, PluralRuleType::Cardinal);
    assert_eq!(
        resolve_plural_rules(&vec![label("type", "ordinal")]).unwrap().rule_type,
        PluralRuleType::Ordinal
    );
    assert_eq!(
        resolve_plural_rules(&vec![label("type", "nominal")]),
        Err(OptionError::InvalidValue(OptionKey::Type))
    );
    let categories = [
        (PluralCategory::Zero, "zero"),
        (PluralCategory::One, "one"),
        (PluralCategory::Two, "two"),
        (PluralCategory::Few, "few"),
        (PluralCategory::Many, "many"),
        (PluralCategory::Other, "other"),
    ];
    for (category, name) in categories {
        assert_eq!(category.to_symbol_name(), name);
        assert_eq!(PluralCategory::from_label(name), Some(category));
    }
}

#[test]
fn relative_time_options_default_to_long_and_always() {
    assert_eq!(
        resolve_relative_time(&Vec::new()),
        Ok(RelativeTimeDescriptor { style: RelativeStyle::Long, numeric: NumericMode::Always })
    );
    assert_eq!(
        resolve_relative_time(&vec![label("numeric", "auto"), label("style", "short")]),
        Ok(RelativeTimeDescriptor { style: RelativeStyle::Short, numeric: NumericMode::Auto })
    );
    assert_eq!(
        resolve_relative_time(&vec![label("numeric", "never")]),
        Err(OptionError::InvalidValue(OptionKey::Numeric))
    );
    assert_eq!(
        resolve_relative_time(&vec![flag("numeric", true)]),
        Err(OptionError::InvalidValue(OptionKey::Numeric))
    );
}

#[test]
fn units_have_distinct_places() {
    let units = [
        (Unit::Second, "second", 0),
        (Unit::Minute, "minute", 1),
        (Unit::Hour, "hour", 2),
        (Unit::Day, "day", 3),
        (Unit::Week, "week", 4),
        (Unit::Month, "month", 5),
        (Unit::Quarter, "quarter", 6),
        (Unit::Year, "year", 7),
    ];
    for (unit, name, index) in units {
        assert_eq!(Unit::from_symbol(name), Ok(unit));
        assert_eq!(unit.to_symbol_name(), name);
        assert_eq!(unit.index(), index);
        assert!(unit.index() < UNIT_COUNT);
    }
    assert_eq!(Unit::from_symbol("decade"), Err(OptionError::InvalidUnit));
}

#[test]
fn display_names_need_a_type() {
    assert_eq!(
        resolve_display_names(&Vec::new()),
        Err(OptionError::MissingKey(OptionKey::Type))
    );
    assert_eq!(
        resolve_display_names(&vec![label("style", "short")]),
        Err(OptionError::MissingKey(OptionKey::Type))
    );
    assert_eq!(
        resolve_display_names(&vec![label("type", "region")]),
        Ok(DisplayNamesDescriptor {
            display_type: DisplayNamesType::Region,
            style: DisplayNamesStyle::Long,
            fallback: DisplayNamesFallback::Code,
        })
    );
    assert_eq!(
        resolve_display_names(&vec![
            label("type", "script"),
            label("style", "narrow"),
            label("fallback", "none")
        ]),
        Ok(DisplayNamesDescriptor {
            display_type: DisplayNamesType::Script,
            style: DisplayNamesStyle::Narrow,
            fallback: DisplayNamesFallback::Absent,
        })
    );
    assert_eq!(
        resolve_display_names(&vec![label("type", "currency")]),
        Err(OptionError::InvalidValue(OptionKey::Type))
    );
    assert_eq!(
        resolve_display_names(&vec![label("type", "locale"), label("fallback", "nil")]),
        Err(OptionError::InvalidValue(OptionKey::Fallback))
    );
    assert_eq!(DisplayNamesFallback::Absent.to_symbol_name(), "none");
}

#[test]
fn fallback_gives_the_code_or_nothing() {
    let code = || "xx".to_string();
    assert_eq!(
        apply_fallback(Some("French".to_string()), code(), DisplayNamesFallback::Code),
        Some("French".to_string())
    );
    assert_eq!(
        apply_fallback(Some("French".to_string()), code(), DisplayNamesFallback::Absent),
        Some("French".to_string())
    );
    assert_eq!(apply_fallback(None, code(), DisplayNamesFallback::Code), Some("xx".to_string()));
    assert_eq!(apply_fallback(None, code(), DisplayNamesFallback::Absent), None);
}

#[test]
fn collator_options_default_to_variant() {
    assert_eq!(
        resolve_collator(&Vec::new()),
        Ok(CollatorDescriptor { sensitivity: Sensitivity::Variant, numeric: false, case_first: None })
    );
    assert_eq!(
        resolve_collator(&vec![
            label("sensitivity", "case"),
            flag("numeric", true),
            label("case_first", "upper")
        ]),
        Ok(CollatorDescriptor {
            sensitivity: Sensitivity::Case,
            numeric: true,
            case_first: Some(CaseFirstOption::Upper),
        })
    );
    assert_eq!(
        resolve_collator(&vec![label("sensitivity", "all")]),
        Err(OptionError::InvalidValue(OptionKey::Sensitivity))
    );
    assert_eq!(
        resolve_collator(&vec![label("case_first", "middle")]),
        Err(OptionError::InvalidValue(OptionKey::CaseFirst))
    );
    assert_eq!(
        resolve_collator(&vec![label("numeric", "true")]),
        Err(OptionError::InvalidValue(OptionKey::Numeric))
    );
}

#[test]
fn sensitivity_sets_strength_and_case_level() {
    assert_eq!(Sensitivity::Base.strength(), Strength::Primary);
    assert_eq!(Sensitivity::Accent.strength(), Strength::Secondary);
    assert_eq!(Sensitivity::Case.strength(), Strength::Primary);
    assert_eq!(Sensitivity::Variant.strength(), Strength::Tertiary);
    assert!(Sensitivity::Case.case_level());
    assert!(!Sensitivity::Base.case_level());
    assert!(!Sensitivity::Accent.case_level());
    assert!(!Sensitivity::Variant.case_level());
}

#[test]
fn comparison_outcomes_have_their_numbers() {
    assert_eq!(ordering_number(Ordering::Less), -1);
    assert_eq!(ordering_number(Ordering::Equal), 0);
    assert_eq!(ordering_number(Ordering::Greater), 1);
}

#[test]
fn duration_style_defaults_to_long() {
    assert_eq!(resolve_duration(&Vec::new()).unwrap().style, DurationStyle::Long);
    assert_eq!(
        resolve_duration(&vec![label("style", "digital")]).unwrap().style,
        DurationStyle::Digital
    );
    assert_eq!(
        resolve_duration(&vec![label("style", "tiny")]),
        Err(OptionError::InvalidValue(OptionKey::Style))
    );
}

#[test]
fn durations_need_a_component_above_zero() {
    assert_eq!(DurationInput::empty().validate(), Err(DurationError::Empty));
    let mut zeros = DurationInput::empty();
    zeros.hours = Some(0);
    zeros.seconds = Some(0);
    assert_eq!(zeros.validate(), Err(DurationError::Empty));
    let mut input = DurationInput::empty();
    input.hours = Some(1);
    input.minutes = Some(30);
    let value = input.validate().unwrap();
    assert_eq!(value.hours, 1);
    assert_eq!(value.minutes, 30);
    assert_eq!(value.years, 0);
    assert_eq!(value.nanoseconds, 0);
    let mut last = DurationInput::empty();
    last.nanoseconds = Some(i64::MAX);
    assert_eq!(last.validate().unwrap().nanoseconds, i64::MAX as u64);
}

#[test]
fn negative_duration_components_are_refused_in_order() {
    let mut input = DurationInput::empty();
    input.days = Some(-1);
    input.months = Some(-2);
    input.hours = Some(5);
    assert_eq!(input.validate(), Err(DurationError::Negative(DurationUnit::Months)));
    assert_eq!(extract_u64(DurationUnit::Weeks, Some(-1)), Err(DurationError::Negative(DurationUnit::Weeks)));
    assert_eq!(extract_u64(DurationUnit::Weeks, Some(3)), Ok(3));
    assert_eq!(extract_u64(DurationUnit::Weeks, None), Ok(0));
}

#[test]
fn segmenter_needs_a_granularity() {
    assert_eq!(
        resolve_segmenter(&Vec::new()),
        Err(OptionError::MissingKey(OptionKey::Granularity))
    );
    assert_eq!(
        resolve_segmenter(&vec![label("granularity", "word")]).unwrap().granularity,
        Granularity::Word
    );
    assert_eq!(
        resolve_segmenter(&vec![label("granularity", "page")]),
        Err(OptionError::InvalidValue(OptionKey::Granularity))
    );
    assert!(!Granularity::Grapheme.provider_required());
    assert!(!Granularity::Word.provider_required());
    assert!(Granularity::Sentence.provider_required());
    assert!(Granularity::Line.provider_required());
    assert!(Granularity::Word.reports_word_like());
    assert!(!Granularity::Line.reports_word_like());
}

#[test]
fn breaks_cut_out_nonempty_segments() {
    assert_eq!(segment_ranges(&vec![0, 5, 6, 11]), vec![(0, 5), (5, 6), (6, 11)]);
    assert_eq!(segment_ranges(&vec![0]), Vec::<(usize, usize)>::new());
    assert_eq!(segment_ranges(&Vec::new()), Vec::<(usize, usize)>::new());
    assert_eq!(segment_ranges(&vec![3, 3, 7]), vec![(0, 3), (3, 7)]);
    assert_eq!(segment_ranges(&vec![4, 2, 9]), vec![(0, 4), (2, 9)]);
}

#[test]
fn an_explicit_provider_wins_over_the_default() {
    assert_eq!(resolve_provider(Some(1), Some(2)), Ok(1));
    assert_eq!(resolve_provider(None, Some(2)), Ok(2));
    assert_eq!(resolve_provider(Some(1), None), Ok(1));
    assert_eq!(resolve_provider::<u8>(None, None), Err(ProviderError::NoProvider));
}

#[test]
fn style_only_descriptors_need_a_style() {
    assert_eq!(FormatDescriptor::from_styles(None, None, None), Err(OptionError::MissingStyle));
    let descriptor =
        FormatDescriptor::from_styles(Some(DateStyle::Short), None, Some(Calendar::Hebrew)).unwrap();
    assert_eq!(descriptor.date_style(), Some(DateStyle::Short));
    assert_eq!(descriptor.time_style(), None);
    assert_eq!(descriptor.calendar, Some(Calendar::Hebrew));
    let both =
        FormatDescriptor::from_styles(Some(DateStyle::Long), Some(TimeStyle::Full), None).unwrap();
    assert_eq!(both.time_style(), Some(TimeStyle::Full));
}

#[test]
fn parts_have_labels() {
    assert_eq!(Part::Literal.to_symbol_name(), "literal");
    assert_eq!(Part::Integer.to_symbol_name(), "integer");
    assert_eq!(Part::MinusSign.to_symbol_name(), "minus_sign");
    assert_eq!(Part::DayPeriod.to_symbol_name(), "day_period");
    assert_eq!(Part::TimeZoneName.to_symbol_name(), "time_zone_name");
    assert_eq!(Part::Weekday.to_symbol_name(), "weekday");
}

#[test]
fn locale_specifiers_stand_for_coverage_levels() {
    assert_eq!(parse_locales("full"), Ok(LocaleSpecifier::Full));
    assert_eq!(parse_locales("modern"), Ok(LocaleSpecifier::Modern));
    assert_eq!(parse_locales("everything"), Err(SpecifierError::Unknown));
    assert!(LocaleSpecifier::Full.is_full());
    assert!(!LocaleSpecifier::Basic.is_full());
    assert_eq!(LocaleSpecifier::Full.coverage_levels(), Vec::<CoverageLevel>::new());
    assert_eq!(
        LocaleSpecifier::Recommended.coverage_levels(),
        vec![CoverageLevel::Modern, CoverageLevel::Moderate, CoverageLevel::Basic]
    );
    assert_eq!(LocaleSpecifier::Modern.coverage_levels(), vec![CoverageLevel::Modern]);
    assert_eq!(LocaleSpecifier::Moderate.coverage_levels(), vec![CoverageLevel::Moderate]);
    assert_eq!(LocaleSpecifier::Basic.coverage_levels(), vec![CoverageLevel::Basic]);
    assert_eq!(CoverageLevel::Moderate.to_symbol_name(), "moderate");
}

#[test]
fn segmenter_data_comes_from_the_provider_or_is_embedded() {
    assert_eq!(select_data(Granularity::Grapheme, false), Ok(DataVariant::Embedded));
    assert_eq!(select_data(Granularity::Word, false), Ok(DataVariant::Embedded));
    assert_eq!(select_data(Granularity::Grapheme, true), Ok(DataVariant::Loaded));
    assert_eq!(select_data(Granularity::Line, true), Ok(DataVariant::Loaded));
    assert_eq!(
        select_data(Granularity::Sentence, false),
        Err(SegmenterError::ProviderRequired(Granularity::Sentence))
    );
    assert_eq!(
        select_data(Granularity::Line, false),
        Err(SegmenterError::ProviderRequired(Granularity::Line))
    );
}

#[test]
fn each_segment_knows_the_break_that_closes_it() {
    assert_eq!(segment_sources(&vec![0, 5, 6, 11]), vec![1, 2, 3]);
    assert_eq!(segment_sources(&vec![0]), Vec::<usize>::new());
    assert_eq!(segment_sources(&Vec::new()), Vec::<usize>::new());
    assert_eq!(segment_sources(&vec![3, 3, 7]), vec![0, 2]);
    assert_eq!(segment_sources(&vec![4, 2, 9]), vec![0, 2]);
    let breaks = vec![0, 2, 2, 5, 9];
    let ranges = segment_ranges(&breaks);
    let sources = segment_sources(&breaks);
    assert_eq!(ranges.len(), sources.len());
    for (range, source) in ranges.iter().zip(sources) {
        assert_eq!(range.1, breaks[source]);
    }
}
