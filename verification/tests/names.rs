use intl_format::names::to_snake_case;

#[test]
fn snake_case_splits_capitalised_words() {
    assert_eq!(to_snake_case("HalfExpand"), "half_expand");
    assert_eq!(to_snake_case("Ceil"), "ceil");
    assert_eq!(to_snake_case("HalfEven"), "half_even");
}

#[test]
fn snake_case_of_empty_identifier_is_empty() {
    assert_eq!(to_snake_case(""), "");
}

#[test]
fn snake_case_keeps_lower_case_and_digits() {
    assert_eq!(to_snake_case("already_lower"), "already_lower");
    assert_eq!(to_snake_case("x2Y"), "x2_y");
}

#[test]
fn snake_case_sets_off_every_capital() {
    assert_eq!(to_snake_case("ABC"), "a_b_c");
}

#[test]
fn snake_case_leaves_capitals_outside_ascii_as_they_are() {
    assert_eq!(to_snake_case("a\u{c9}"), "a_\u{c9}");
}

#[test]
fn snake_case_treats_only_capitals_as_upper_case_among_ascii() {
    assert_eq!(to_snake_case("a1_b-C d"), "a1_b-_c d");
    assert_eq!(to_snake_case("Z"), "z");
    assert_eq!(to_snake_case("[@`{"), "[@`{");
}
