use djoc::date::Date;

#[test]
fn test_date() {
    let date = Date::from_ymd(2020, 1, 1);
    assert_eq!(date.to_plain_string(), "2020-01-01");
    assert_eq!(
        date.format_with_locale("en_US"),
        Some(" 1 January 2020".to_string())
    );
    assert_eq!(
        date.format_with_locale("en_GB"),
        Some(" 1 January 2020".to_string())
    );
    assert_eq!(
        date.format_with_locale("de_DE"),
        Some(" 1 Januar 2020".to_string())
    );
    assert_eq!(
        date.format_with_locale("fr_FR"),
        Some(" 1 janvier 2020".to_string())
    );
    assert_eq!(
        date.format_with_locale("es_ES"),
        Some(" 1 enero 2020".to_string())
    );
    assert_eq!(
        date.format_with_locale("zh_CN"),
        Some(" 1 一月 2020".to_string())
    );
    assert_eq!(
        date.format_with_locale("ja_JP"),
        Some(" 1 1月 2020".to_string())
    );
    assert_eq!(
        date.format_with_locale("ko_KR"),
        Some(" 1 1월 2020".to_string())
    );
    assert_eq!(
        date.format_with_locale("ru_RU"),
        Some(" 1 января 2020".to_string())
    );
    assert_eq!(
        date.format_with_locale("ar_SA"),
        Some(" 1 يناير 2020".to_string())
    );
    assert_eq!(
        date.format_with_locale("fa_IR"),
        Some(" 1 ژانویه 2020".to_string())
    );
    assert_eq!(
        date.format_with_locale("he_IL"),
        Some(" 1 ינואר 2020".to_string())
    );
    assert_eq!(
        date.format_with_locale("th_TH"),
        Some(" 1 มกราคม 2020".to_string())
    );
    assert_eq!(
        date.format_with_locale("vi_VN"),
        Some(" 1 Tháng 1 2020".to_string())
    );
    assert_eq!(
        date.format_with_locale("hi_IN"),
        Some(" 1 जनवरी 2020".to_string())
    );
}

#[test]
fn test_time() {
    let time = Date::from_hms(12, 34, 56);
    assert_eq!(time.to_plain_string(), "12:34:56");
    assert_eq!(time.format_with_locale("en_US"), Some("12:34".to_string()));
    assert_eq!(time.format_with_locale("en_GB"), Some("12:34".to_string()));
    assert_eq!(time.format_with_locale("de_DE"), Some("12:34".to_string()));
    assert_eq!(time.format_with_locale("fr_FR"), Some("12:34".to_string()));
    assert_eq!(time.format_with_locale("es_ES"), Some("12:34".to_string()));
    assert_eq!(time.format_with_locale("zh_CN"), Some("12:34".to_string()));
    assert_eq!(time.format_with_locale("ja_JP"), Some("12:34".to_string()));
    assert_eq!(time.format_with_locale("ko_KR"), Some("12:34".to_string()));
    assert_eq!(time.format_with_locale("ru_RU"), Some("12:34".to_string()));
}

#[test]
fn nonexistent_day_is_dropped() {
    let date = Date::from_ymd(2021, 2, 31);
    assert_eq!(date.to_plain_string(), "");
    assert_eq!(date.format_with_locale("en_US"), None);
}

#[test]
fn month_and_day_are_clamped() {
    let date = Date::from_ymd(2020, 99, 99);
    assert_eq!(date.to_plain_string(), "2020-12-31");
}

#[test]
fn leap_year_day_exists() {
    assert_eq!(Date::from_ymd(2020, 2, 29).to_plain_string(), "2020-02-29");
    assert_eq!(Date::from_ymd(1900, 2, 29).to_plain_string(), "");
    assert_eq!(Date::from_ymd(2000, 2, 29).to_plain_string(), "2000-02-29");
}

#[test]
fn unknown_locale_formats_to_none() {
    let date = Date::from_ymd(2020, 1, 1);
    assert_eq!(date.format_with_locale("zz_ZZ"), None);
    let time = Date::from_hms(1, 2, 3);
    assert_eq!(time.format_with_locale("zz_ZZ"), None);
}

#[test]
fn datetime_combines_both_parts() {
    let dt = Date::from_ymd_hms(2020, 1, 1, 7, 5, 0);
    assert_eq!(dt.to_plain_string(), "2020-01-01 07:05:00");
    assert_eq!(
        dt.format_with_locale("en_US"),
        Some(" 1 January 2020 07:05".to_string())
    );
}

#[test]
fn unspecified_date_is_empty() {
    let d = Date::default();
    assert_eq!(d.to_plain_string(), "");
    assert_eq!(d.format_with_locale("en_US"), None);
}
