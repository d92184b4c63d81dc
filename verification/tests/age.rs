use kubectl_light::age::format_creation;

#[test]
fn young_objects_are_shown_in_minutes() {
    assert_eq!(format_creation(0), "0m");
    assert_eq!(format_creation(59), "0m");
    assert_eq!(format_creation(60), "1m");
    assert_eq!(format_creation(119), "1m");
    assert_eq!(format_creation(3599), "59m");
}

#[test]
fn objects_of_an_hour_or_more_are_shown_in_hours() {
    assert_eq!(format_creation(3600), "1h");
    assert_eq!(format_creation(7199), "1h");
    assert_eq!(format_creation(36000), "10h");
    assert_eq!(format_creation(86399), "23h");
}

#[test]
fn objects_of_a_day_or_more_are_shown_in_days() {
    assert_eq!(format_creation(86400), "1d");
    assert_eq!(format_creation(172799), "1d");
    assert_eq!(format_creation(172800), "2d");
    assert_eq!(format_creation(365 * 86400), "365d");
    assert_eq!(format_creation(i64::MAX), "106751991167300d");
}

#[test]
fn ages_below_zero_are_shown_in_minutes() {
    assert_eq!(format_creation(-1), "0m");
    assert_eq!(format_creation(-59), "0m");
    assert_eq!(format_creation(-60), "-1m");
    assert_eq!(format_creation(-3600), "-60m");
    assert_eq!(format_creation(-172800), "-2880m");
    assert_eq!(format_creation(i64::MIN), "-153722867280912930m");
}
