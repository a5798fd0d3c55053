use weather_core::date::CalendarDate;
use weather_core::text::int_to_text;

#[test]
fn int_to_text_writes_decimal() {
    assert_eq!(int_to_text(0), "0");
    assert_eq!(int_to_text(7), "7");
    assert_eq!(int_to_text(10), "10");
    assert_eq!(int_to_text(1030), "1030");
    assert_eq!(int_to_text(-305), "-305");
    assert_eq!(int_to_text(i32::MAX), i32::MAX.to_string());
    assert_eq!(int_to_text(i32::MIN), i32::MIN.to_string());
}

#[test]
fn calendar_date_is_written_year_month_day_with_padding() {
    let d = CalendarDate { year: 2024, month: 12, day: 28 };
    assert_eq!(d.to_iso_text(), "2024-12-28");
    let d = CalendarDate { year: 2025, month: 3, day: 7 };
    assert_eq!(d.to_iso_text(), "2025-03-07");
    let d = CalendarDate { year: 987, month: 1, day: 1 };
    assert_eq!(d.to_iso_text(), "0987-01-01");
    let d = CalendarDate { year: -44, month: 3, day: 15 };
    assert_eq!(d.to_iso_text(), "-0044-03-15");
    let d = CalendarDate { year: 12345, month: 6, day: 30 };
    assert_eq!(d.to_iso_text(), "+12345-06-30");
}
