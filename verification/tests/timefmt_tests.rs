use player_core::timefmt::format_duration;

#[test]
fn two_minutes_five_seconds() {
    assert_eq!(format_duration(125), "02:05");
}

#[test]
fn under_a_minute_pads_the_minutes() {
    assert_eq!(format_duration(59), "00:59");
}

#[test]
fn zero_seconds_is_the_zeroed_label() {
    assert_eq!(format_duration(0), "00:00");
}

#[test]
fn exact_minute_boundary() {
    assert_eq!(format_duration(60), "01:00");
    assert_eq!(format_duration(600), "10:00");
}

#[test]
fn minutes_grow_past_two_digits_instead_of_wrapping() {
    assert_eq!(format_duration(6000), "100:00");
    assert_eq!(format_duration(6125), "102:05");
}

#[test]
fn labels_of_nearby_durations_stay_distinct() {
    // The label loses no information: different second counts render
    // differently, so a label can be read back to its duration.
    let labels: Vec<String> = (0..200).map(format_duration).collect();
    for i in 0..labels.len() {
        for j in (i + 1)..labels.len() {
            assert_ne!(labels[i], labels[j]);
        }
    }
}

#[test]
fn single_digit_seconds_are_zero_padded() {
    assert_eq!(format_duration(61), "01:01");
    assert_eq!(format_duration(9), "00:09");
}
