use homescreen::clock::Time;

#[test]
fn time_format_examples() {
    assert_eq!(Time::new_unchecked(0, 0).format(), "Midnight".to_string());
    assert_eq!(Time::new_unchecked(12, 0).format(), "Midday".to_string());
    assert_eq!(Time::new_unchecked(2, 0).format(), "Two O'Clock".to_string());
    assert_eq!(Time::new_unchecked(2, 30).format(), "Half past Two");
    assert_eq!(Time::new_unchecked(2, 26).format(), "Twenty-five past Two");
    assert_eq!(Time::new_unchecked(2, 45).format(), "Quater to Three");
    assert_eq!(Time::new_unchecked(23, 55).format(), "Five to Midnight");
}

#[test]
fn time_format_rounds_down_to_five_minutes() {
    assert_eq!(Time::new_unchecked(12, 4).format(), "Midday");
    assert_eq!(Time::new_unchecked(11, 35).format(), "Twenty-five to Midday");
    assert_eq!(Time::new_unchecked(13, 59).format(), "Five to Two");
    assert_eq!(Time::new_unchecked(23, 5).format(), "Five past Eleven");
}

#[test]
fn time_new_checks_range() {
    assert!(Time::new(23, 59).is_some());
    assert!(Time::new(24, 0).is_none());
    assert!(Time::new(0, 60).is_none());
    let t = Time::new(7, 15).unwrap();
    assert_eq!(t.hour(), 7);
    assert_eq!(t.minute(), 15);
    assert_eq!(t.format(), "Quater past Seven");
}
