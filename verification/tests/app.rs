use gps_globe::app::App;
use gps_globe::location::{FetchError, Location};

fn paris() -> Location {
    Location {
        latitude: 488_566,
        longitude: 23_522,
        city: "Paris".to_string(),
        country: "France".to_string(),
    }
}

#[test]
fn a_new_state_has_no_location_and_no_rotation() {
    let app = App::new(1_234);
    assert_eq!(app.location, None);
    assert_eq!(app.last_update, 1_234);
    assert_eq!(app.rotation, 0);
}

#[test]
fn update_turns_ten_degrees_a_second() {
    let mut app = App::new(0);
    app.update(1_000_000_000);
    assert_eq!(app.rotation, 10_000_000_000);
    assert_eq!(app.last_update, 1_000_000_000);
}

#[test]
fn update_after_a_quarter_second_turns_two_and_a_half_degrees() {
    let mut app = App::new(500);
    app.update(250_000_500);
    assert_eq!(app.rotation, 2_500_000_000);
    assert_eq!(app.last_update, 250_000_500);
}

#[test]
fn updates_add_up_to_the_time_between_first_and_last() {
    let mut often = App::new(100);
    let mut t: u64 = 100;
    while t < 1_000_000_100 {
        t += 250_000_000;
        often.update(t);
    }
    let mut once = App::new(100);
    once.update(1_000_000_100);
    assert_eq!(often.rotation, 10_000_000_000);
    assert_eq!(often.rotation, once.rotation);
    assert_eq!(often.last_update, once.last_update);
}

#[test]
fn update_with_no_time_passed_turns_nothing() {
    let mut app = App::new(77);
    app.update(77);
    assert_eq!(app.rotation, 0);
    assert_eq!(app.last_update, 77);
}

#[test]
fn update_on_an_earlier_reading_turns_nothing_and_notes_the_reading() {
    let mut app = App::new(1_000);
    app.update(400);
    assert_eq!(app.rotation, 0);
    assert_eq!(app.last_update, 400);
    app.update(500);
    assert_eq!(app.rotation, 1_000);
}

#[test]
fn update_over_the_longest_time_does_not_overflow() {
    let mut app = App::new(0);
    app.update(u64::MAX);
    assert_eq!(app.rotation, 10 * (u64::MAX as u128));
}

#[test]
fn rotation_stops_at_the_limit() {
    let mut app = App { location: None, last_update: 0, rotation: u128::MAX - 5 };
    app.update(1);
    assert_eq!(app.rotation, u128::MAX);
    app.update(2);
    assert_eq!(app.rotation, u128::MAX);
    let mut exact = App { location: None, last_update: 0, rotation: u128::MAX - 10 };
    exact.update(1);
    assert_eq!(exact.rotation, u128::MAX);
    let mut below = App { location: None, last_update: 0, rotation: u128::MAX - 11 };
    below.update(1);
    assert_eq!(below.rotation, u128::MAX - 1);
}

#[test]
fn update_keeps_the_location() {
    let mut app = App::new(0);
    app.apply_fetch(Ok(paris()));
    app.update(123_456);
    assert_eq!(app.location, Some(paris()));
}

#[test]
fn a_location_replaces_the_one_held() {
    let mut app = App::new(9);
    app.apply_fetch(Ok(paris()));
    assert_eq!(app.location, Some(paris()));
    let rome = Location {
        latitude: 419_028,
        longitude: 124_964,
        city: "Rome".to_string(),
        country: "Italy".to_string(),
    };
    app.apply_fetch(Ok(rome.clone()));
    assert_eq!(app.location, Some(rome));
    assert_eq!(app.last_update, 9);
    assert_eq!(app.rotation, 0);
}

#[test]
fn a_failed_lookup_changes_nothing() {
    let mut empty = App::new(5);
    empty.apply_fetch(Err(FetchError::NoResponse));
    assert_eq!(empty, App::new(5));

    let mut held = App::new(5);
    held.apply_fetch(Ok(paris()));
    held.update(1_000);
    held.apply_fetch(Err(FetchError::MissingLatitude));
    assert_eq!(held.location, Some(paris()));
    held.apply_fetch(Err(FetchError::MissingLongitude));
    assert_eq!(
        held,
        App { location: Some(paris()), last_update: 1_000, rotation: 9_950 }
    );
}
