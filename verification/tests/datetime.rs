use intl_format::datetime::create_field_set;
use intl_format::datetime::read_time_zone;
use intl_format::datetime::resolve_datetime;
use intl_format::datetime::resolve_datetime_with_zone;
use intl_format::datetime::select_date_fields;
use intl_format::datetime::select_time_precision;
use intl_format::datetime::Calendar;
use intl_format::datetime::ComponentMatrix;
use intl_format::datetime::ComponentStyle;
use intl_format::datetime::DateFields;
use intl_format::datetime::DatePart;
use intl_format::datetime::DateStyle;
use intl_format::datetime::DateTimeOptions;
use intl_format::datetime::FieldSet;
use intl_format::datetime::HourCycle;
use intl_format::datetime::Length;
use intl_format::datetime::Selection;
use intl_format::datetime::TimePart;
use intl_format::datetime::TimePrecision;
use intl_format::datetime::TimeStyle;
use intl_format::options::Labelled;
use intl_format::options::OptionEntry;
use intl_format::options::OptionError;
use intl_format::options::OptionKey;
use intl_format::options::OptionValue;

fn label(key: &str, value: &str) -> OptionEntry {
    OptionEntry { key: key.to_string(), value: OptionValue::Label(value.to_string()) }
}

#[test]
fn empty_option_set_resolves_to_numeric_year_month_day() {
    let descriptor = resolve_datetime(&Vec::new()).unwrap();
    assert_eq!(descriptor.selection, Selection::Components(ComponentMatrix::default()));
    assert_eq!(ComponentMatrix::default().year, Some(ComponentStyle::Numeric));
    assert_eq!(ComponentMatrix::default().month, Some(ComponentStyle::Numeric));
    assert_eq!(ComponentMatrix::default().day, Some(ComponentStyle::Numeric));
    assert_eq!(ComponentMatrix::default().weekday, None);
    assert_eq!(
        descriptor.field_set,
        FieldSet {
            date: Some(DatePart { fields: DateFields::YMD, length: Length::Short }),
            time: None,
        }
    );
    assert_eq!(descriptor.calendar, None);
    assert_eq!(descriptor.hour_cycle, None);
}

#[test]
fn auxiliary_keys_alone_still_give_the_default_components() {
    let entries = vec![label("calendar", "japanese"), label("hour_cycle", "h23")];
    let descriptor = resolve_datetime(&entries).unwrap();
    assert_eq!(descriptor.selection, Selection::Components(ComponentMatrix::default()));
    assert_eq!(descriptor.calendar, Some(Calendar::Japanese));
    assert_eq!(descriptor.hour_cycle, Some(HourCycle::H23));
}

#[test]
fn field_set_table_covers_all_sixteen_combinations() {
    let table = [
        (false, false, false, false, None),
        (false, false, false, true, Some(DateFields::E)),
        (false, false, true, false, Some(DateFields::D)),
        (false, false, true, true, Some(DateFields::DE)),
        (false, true, false, false, Some(DateFields::M)),
        (false, true, false, true, Some(DateFields::ME)),
        (false, true, true, false, Some(DateFields::MD)),
        (false, true, true, true, Some(DateFields::MDE)),
        (true, false, false, false, Some(DateFields::Y)),
        (true, false, false, true, Some(DateFields::YME)),
        (true, false, true, false, Some(DateFields::YMD)),
        (true, false, true, true, Some(DateFields::YMDE)),
        (true, true, false, false, Some(DateFields::YM)),
        (true, true, false, true, Some(DateFields::YME)),
        (true, true, true, false, Some(DateFields::YMD)),
        (true, true, true, true, Some(DateFields::YMDE)),
    ];
    for (year, month, day, weekday, expected) in table {
        assert_eq!(select_date_fields(year, month, day, weekday), expected);
    }
}

#[test]
fn numeric_year_month_day_select_the_year_month_day_set() {
    let entries =
        vec![label("year", "numeric"), label("month", "numeric"), label("day", "numeric")];
    let descriptor = resolve_datetime(&entries).unwrap();
    assert_eq!(
        descriptor.field_set.date,
        Some(DatePart { fields: DateFields::YMD, length: Length::Short })
    );
    assert_eq!(descriptor.field_set.time, None);
}

#[test]
fn day_and_long_weekday_select_the_day_weekday_set() {
    let entries = vec![label("day", "numeric"), label("weekday", "long")];
    let descriptor = resolve_datetime(&entries).unwrap();
    assert_eq!(
        descriptor.field_set.date,
        Some(DatePart { fields: DateFields::DE, length: Length::Long })
    );
}

#[test]
fn year_and_day_without_month_fall_back_to_year_month_day() {
    let entries = vec![label("year", "numeric"), label("day", "two_digit")];
    let descriptor = resolve_datetime(&entries).unwrap();
    assert_eq!(
        descriptor.field_set.date,
        Some(DatePart { fields: DateFields::YMD, length: Length::Short })
    );
    match descriptor.selection {
        Selection::Components(matrix) => assert_eq!(matrix.month, None),
        _ => panic!("components expected"),
    }
}

#[test]
fn textual_month_makes_the_length_long() {
    let entries = vec![label("year", "numeric"), label("month", "short")];
    let descriptor = resolve_datetime(&entries).unwrap();
    assert_eq!(
        descriptor.field_set.date,
        Some(DatePart { fields: DateFields::YM, length: Length::Long })
    );
}

#[test]
fn time_components_compose_with_date_components() {
    let entries = vec![label("month", "numeric"), label("hour", "numeric"), label("minute", "two_digit")];
    let descriptor = resolve_datetime(&entries).unwrap();
    assert_eq!(
        descriptor.field_set,
        FieldSet {
            date: Some(DatePart { fields: DateFields::M, length: Length::Short }),
            time: Some(TimePart { precision: TimePrecision::Minute, length: Length::Short }),
        }
    );
}

#[test]
fn time_precision_is_that_of_the_finest_component() {
    assert_eq!(select_time_precision(false, false, false), None);
    assert_eq!(select_time_precision(true, false, false), Some(TimePrecision::Hour));
    assert_eq!(select_time_precision(true, true, false), Some(TimePrecision::Minute));
    assert_eq!(select_time_precision(false, true, false), Some(TimePrecision::Minute));
    assert_eq!(select_time_precision(true, true, true), Some(TimePrecision::Second));
    assert_eq!(select_time_precision(true, false, true), Some(TimePrecision::Second));
}

#[test]
fn style_key_with_component_key_is_refused_for_every_pair() {
    let styles = [("date_style", "long"), ("time_style", "short")];
    let components = [
        ("year", "numeric"),
        ("month", "long"),
        ("day", "numeric"),
        ("weekday", "short"),
        ("hour", "numeric"),
        ("minute", "numeric"),
        ("second", "two_digit"),
    ];
    for (style_key, style_value) in styles {
        for (component_key, component_value) in components {
            let entries = vec![label(style_key, style_value), label(component_key, component_value)];
            assert_eq!(resolve_datetime(&entries), Err(OptionError::StyleWithComponents));
            let swapped = vec![label(component_key, component_value), label(style_key, style_value)];
            assert_eq!(resolve_datetime(&swapped), Err(OptionError::StyleWithComponents));
        }
    }
}

#[test]
fn resolving_twice_gives_equal_descriptors() {
    let entries = vec![label("date_style", "full"), label("time_style", "medium"), label("calendar", "roc")];
    assert_eq!(resolve_datetime(&entries), resolve_datetime(&entries));
    let components = vec![label("weekday", "narrow"), label("second", "numeric")];
    assert_eq!(resolve_datetime(&components), resolve_datetime(&components));
}

#[test]
fn styles_map_to_lengths_part_by_part() {
    let entries = vec![label("date_style", "full"), label("time_style", "short")];
    let descriptor = resolve_datetime(&entries).unwrap();
    assert_eq!(
        descriptor.selection,
        Selection::Styles { date: Some(DateStyle::Full), time: Some(TimeStyle::Short) }
    );
    assert_eq!(
        descriptor.field_set,
        FieldSet {
            date: Some(DatePart { fields: DateFields::YMD, length: Length::Long }),
            time: Some(TimePart { precision: TimePrecision::Second, length: Length::Short }),
        }
    );
}

#[test]
fn one_style_leaves_the_other_part_out() {
    let date_only = create_field_set(Some(DateStyle::Medium), None);
    assert_eq!(date_only.date, Some(DatePart { fields: DateFields::YMD, length: Length::Medium }));
    assert_eq!(date_only.time, None);
    let time_only = create_field_set(None, Some(TimeStyle::Long));
    assert_eq!(time_only.date, None);
    assert_eq!(
        time_only.time,
        Some(TimePart { precision: TimePrecision::Second, length: Length::Long })
    );
}

#[test]
fn unknown_key_is_reported_by_its_index() {
    let entries = vec![label("year", "numeric"), label("colour", "red")];
    assert_eq!(resolve_datetime(&entries), Err(OptionError::UnknownKey(1)));
    let number_key = vec![label("rounding_mode", "floor")];
    assert_eq!(resolve_datetime(&number_key), Err(OptionError::UnknownKey(0)));
}

#[test]
fn unrecognised_value_names_its_key() {
    assert_eq!(
        resolve_datetime(&vec![label("date_style", "huge")]),
        Err(OptionError::InvalidValue(OptionKey::DateStyle))
    );
    assert_eq!(
        resolve_datetime(&vec![label("year", "long")]),
        Err(OptionError::InvalidValue(OptionKey::Year))
    );
    assert_eq!(
        resolve_datetime(&vec![label("weekday", "numeric")]),
        Err(OptionError::InvalidValue(OptionKey::Weekday))
    );
    assert_eq!(
        resolve_datetime(&vec![label("calendar", "martian")]),
        Err(OptionError::InvalidValue(OptionKey::Calendar))
    );
    let count = OptionEntry { key: "month".to_string(), value: OptionValue::Count(3) };
    assert_eq!(resolve_datetime(&vec![count]), Err(OptionError::InvalidValue(OptionKey::Month)));
}

#[test]
fn typed_options_resolve_like_option_sets() {
    let mut options = DateTimeOptions::empty();
    options.components.day = Some(ComponentStyle::Numeric);
    options.components.weekday = Some(ComponentStyle::Long);
    let from_set =
        resolve_datetime(&vec![label("day", "numeric"), label("weekday", "long")]);
    assert_eq!(options.resolve(), from_set);
}

#[test]
fn labels_round_trip() {
    for style in [DateStyle::Full, DateStyle::Long, DateStyle::Medium, DateStyle::Short] {
        assert_eq!(DateStyle::from_label(style.to_symbol_name()), Some(style));
    }
    assert_eq!(Calendar::Islamic.to_symbol_name(), "islamic");
    assert_eq!(Calendar::from_label("dangi"), Some(Calendar::Dangi));
    assert_eq!(Calendar::from_label("Dangi"), None);
    assert_eq!(ComponentStyle::TwoDigit.to_symbol_name(), "two_digit");
    assert_eq!(TimeStyle::from_label("medium"), Some(TimeStyle::Medium));
}

#[test]
fn hour_cycles_are_those_that_the_renderer_has() {
    for (cycle, name) in [(HourCycle::H11, "h11"), (HourCycle::H12, "h12"), (HourCycle::H23, "h23")] {
        assert_eq!(HourCycle::from_label(name), Some(cycle));
        assert_eq!(cycle.to_symbol_name(), name);
    }
    assert_eq!(
        resolve_datetime(&vec![label("hour_cycle", "h24")]),
        Err(OptionError::InvalidValue(OptionKey::HourCycle))
    );
}

#[test]
fn the_time_zone_is_carried_as_it_was_given() {
    let entries = vec![label("date_style", "long"), label("time_zone", "Asia/Tokyo")];
    assert_eq!(read_time_zone(&entries), Ok(Some("Asia/Tokyo")));
    let (descriptor, zone) = resolve_datetime_with_zone(&entries).unwrap();
    assert_eq!(zone, Some("Asia/Tokyo".to_string()));
    assert_eq!(Ok(descriptor), resolve_datetime(&entries));
    assert_eq!(descriptor.date_style(), Some(DateStyle::Long));
    let without = vec![label("date_style", "long")];
    assert_eq!(read_time_zone(&without), Ok(None));
    assert_eq!(resolve_datetime_with_zone(&without).unwrap().1, None);
    assert_eq!(resolve_datetime(&without), resolve_datetime(&entries));
}

#[test]
fn a_time_zone_that_is_no_text_is_refused() {
    let entries = vec![
        label("date_style", "long"),
        OptionEntry { key: "time_zone".to_string(), value: OptionValue::Count(9) },
    ];
    assert_eq!(resolve_datetime(&entries), Err(OptionError::InvalidValue(OptionKey::TimeZone)));
    assert_eq!(
        resolve_datetime_with_zone(&entries),
        Err(OptionError::InvalidValue(OptionKey::TimeZone))
    );
}

#[test]
fn the_renderer_is_handed_field_sets_that_it_has() {
    let date = |fields| Some(DatePart { fields, length: Length::Long });
    let time = Some(TimePart { precision: TimePrecision::Minute, length: Length::Short });
    let alone = [
        (DateFields::ME, DateFields::MDE),
        (DateFields::YME, DateFields::YMDE),
        (DateFields::Y, DateFields::Y),
        (DateFields::M, DateFields::M),
        (DateFields::YM, DateFields::YM),
        (DateFields::D, DateFields::D),
        (DateFields::E, DateFields::E),
        (DateFields::MD, DateFields::MD),
        (DateFields::DE, DateFields::DE),
        (DateFields::YMD, DateFields::YMD),
        (DateFields::MDE, DateFields::MDE),
        (DateFields::YMDE, DateFields::YMDE),
    ];
    for (named, handed) in alone {
        let set = FieldSet { date: date(named), time: None };
        assert_eq!(set.to_renderable(), FieldSet { date: date(handed), time: None });
    }
    let beside_time = [
        (DateFields::Y, DateFields::YMD),
        (DateFields::M, DateFields::MD),
        (DateFields::YM, DateFields::YMD),
        (DateFields::ME, DateFields::MDE),
        (DateFields::YME, DateFields::YMDE),
        (DateFields::E, DateFields::E),
        (DateFields::YMD, DateFields::YMD),
    ];
    for (named, handed) in beside_time {
        let set = FieldSet { date: date(named), time };
        assert_eq!(
            set.to_renderable(),
            FieldSet {
                date: date(handed),
                time: Some(TimePart { precision: TimePrecision::Minute, length: Length::Long }),
            }
        );
    }
    let time_only = FieldSet { date: None, time };
    assert_eq!(time_only.to_renderable(), time_only);
}
