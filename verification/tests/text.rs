use commit_canvas::calendar::Date;
use commit_canvas::error::{DrawError, InternalFault};
use commit_canvas::text::{commit_message, day_progress_line, decimal_text, percent_complete, progress_line};

#[test]
fn decimal_has_no_leading_zeros() {
    assert_eq!(decimal_text(0), "0");
    assert_eq!(decimal_text(7), "7");
    assert_eq!(decimal_text(10), "10");
    assert_eq!(decimal_text(99), "99");
    assert_eq!(decimal_text(100), "100");
    assert_eq!(decimal_text(105), "105");
    assert_eq!(decimal_text(255), "255");
}

#[test]
fn decimal_agrees_with_std_for_every_byte() {
    for n in 0..=u8::MAX {
        assert_eq!(decimal_text(n), n.to_string());
    }
}

#[test]
fn message_is_ordinal_over_total() {
    assert_eq!(commit_message(1, 1), "#1/1");
    assert_eq!(commit_message(3, 12), "#3/12");
    assert_eq!(commit_message(12, 12), "#12/12");
    assert_eq!(commit_message(100, 255), "#100/255");
    assert_eq!(commit_message(255, 255), "#255/255");
}

#[test]
fn message_agrees_with_format_for_every_pair() {
    for total in [1_u8, 2, 9, 10, 11, 99, 100, 101, 254, 255] {
        for ordinal in 1..=total {
            assert_eq!(commit_message(ordinal, total), format!("#{}/{}", ordinal, total));
        }
    }
}

#[test]
fn percent_rounds_down() {
    assert_eq!(percent_complete(0), 0);
    assert_eq!(percent_complete(1), 0);
    assert_eq!(percent_complete(3), 0);
    assert_eq!(percent_complete(4), 1);
    assert_eq!(percent_complete(185), 49);
    assert_eq!(percent_complete(186), 50);
    assert_eq!(percent_complete(370), 99);
    assert_eq!(percent_complete(371), 100);
}

#[test]
fn progress_line_right_justifies_the_percentage() {
    assert_eq!(progress_line(0, "2023-01-02"), "  0% (2023-01-02)");
    assert_eq!(progress_line(7, "2023-01-30"), "  7% (2023-01-30)");
    assert_eq!(progress_line(42, "2023-06-06"), " 42% (2023-06-06)");
    assert_eq!(progress_line(99, "2024-01-07"), " 99% (2024-01-07)");
    assert_eq!(progress_line(100, "2024-01-08"), "100% (2024-01-08)");
    assert_eq!(progress_line(255, ""), "255% ()");
}

#[test]
fn progress_line_agrees_with_format() {
    for percent in 0..=u8::MAX {
        assert_eq!(progress_line(percent, "1999-12-31"), format!("{:3}% ({})", percent, "1999-12-31"));
    }
}

#[test]
fn day_progress_line_prints_the_civil_date() {
    assert_eq!(day_progress_line(0, Date::from_epoch_days(19359)).unwrap(), "  0% (2023-01-02)");
    assert_eq!(day_progress_line(99, Date::from_epoch_days(19729)).unwrap(), " 99% (2024-01-07)");
    assert_eq!(day_progress_line(50, Date::from_epoch_days(0)).unwrap(), " 50% (1970-01-01)");
    assert_eq!(day_progress_line(1, Date::from_epoch_days(-1)).unwrap(), "  1% (1969-12-31)");
    assert_eq!(day_progress_line(1, Date::from_epoch_days(11_016)).unwrap(), "  1% (2000-02-29)");
}

#[test]
fn date_without_civil_form_is_an_internal_error() {
    assert_eq!(
        day_progress_line(0, Date::from_epoch_days(i32::MAX)),
        Err(DrawError::InternalError(InternalFault::DateUnprintable))
    );
    assert_eq!(
        day_progress_line(0, Date::from_epoch_days(i32::MIN)),
        Err(DrawError::InternalError(InternalFault::DateUnprintable))
    );
}
