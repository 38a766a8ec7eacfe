use euphonica::meta::CalendarDate;
use euphonica::sort::{g_cmp_options, g_cmp_str_options, text_compare, SortOrder};

#[test]
fn texts_compare_by_character() {
    assert_eq!(text_compare("abc", "abd"), SortOrder::Smaller);
    assert_eq!(text_compare("ab", "abc"), SortOrder::Smaller);
    assert_eq!(text_compare("b", "abc"), SortOrder::Larger);
    assert_eq!(text_compare("x", "x"), SortOrder::Equal);
    assert_eq!(text_compare("B", "a"), SortOrder::Smaller);
}

#[test]
fn missing_keys_go_where_the_setting_says() {
    for asc in [true, false] {
        assert_eq!(g_cmp_str_options(None, Some("a"), true, asc, true), SortOrder::Smaller);
        assert_eq!(g_cmp_str_options(None, Some("a"), false, asc, true), SortOrder::Larger);
        assert_eq!(g_cmp_str_options(Some("a"), None, true, asc, true), SortOrder::Larger);
        assert_eq!(g_cmp_str_options(None, None, false, asc, true), SortOrder::Equal);
    }
}

#[test]
fn direction_reverses_present_keys() {
    assert_eq!(g_cmp_str_options(Some("a"), Some("b"), true, true, true), SortOrder::Smaller);
    assert_eq!(g_cmp_str_options(Some("a"), Some("b"), true, false, true), SortOrder::Larger);
    assert_eq!(g_cmp_str_options(Some("B"), Some("a"), true, true, true), SortOrder::Smaller);
    assert_eq!(g_cmp_str_options(Some("B"), Some("a"), true, true, false), SortOrder::Larger);
    assert_eq!(g_cmp_str_options(Some("A"), Some("a"), true, true, false), SortOrder::Equal);
}

#[test]
fn dates_compare_by_year_month_day() {
    let d1 = CalendarDate { year: 1999, month: 12, day: 31 };
    let d2 = CalendarDate { year: 2000, month: 1, day: 1 };
    assert_eq!(g_cmp_options(Some(&d1), Some(&d2), false, true), SortOrder::Smaller);
    assert_eq!(g_cmp_options(Some(&d1), Some(&d2), false, false), SortOrder::Larger);
    assert_eq!(g_cmp_options(None, Some(&d2), false, true), SortOrder::Larger);
    assert_eq!(g_cmp_options(Some(&d1), Some(&d1), false, true), SortOrder::Equal);
}
