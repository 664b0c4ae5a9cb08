use weather_station::IngestionState;
use weather_station::WeatherReading;

fn reading(time: i64, humidity: u8, temp_f_tenths: u16, channel: u8) -> WeatherReading {
    WeatherReading { time, humidity, temp_f_tenths, channel }
}

#[test]
fn readings_are_equivalent_within_a_tenth_of_a_degree() {
    let a = reading(0, 45, 357, 3);
    assert!(a.equivalent(&reading(999, 45, 357, 3)));
    assert!(a.equivalent(&reading(0, 45, 358, 3)));
    assert!(a.equivalent(&reading(0, 45, 356, 3)));
    assert!(!a.equivalent(&reading(0, 45, 359, 3)));
    assert!(!a.equivalent(&reading(0, 45, 355, 3)));
    assert!(!a.equivalent(&reading(0, 44, 357, 3)));
    assert!(!a.equivalent(&reading(0, 45, 357, 2)));
}

#[test]
fn two_equivalent_stale_readings_emit_exactly_one() {
    let mut state = IngestionState::new(0);
    state.on_decoded(reading(1000, 45, 357, 3));
    state.on_decoded(reading(2000, 45, 358, 3));
    let emitted = state.sweep(6_000_000);
    assert_eq!(emitted.len(), 1);
    assert_eq!(emitted[0].time, 1000);
    assert_eq!(emitted[0].humidity, 45);
    assert_eq!(emitted[0].temp_f_tenths, 357);
    assert_eq!(emitted[0].channel, 3);
    assert!(state.recent_readings[3].is_empty());
}

#[test]
fn a_single_stale_reading_is_discarded_without_emission() {
    let mut state = IngestionState::new(0);
    state.on_decoded(reading(1000, 45, 357, 3));
    let emitted = state.sweep(6_000_000);
    assert!(emitted.is_empty());
    assert!(state.recent_readings[3].is_empty());
}

#[test]
fn disagreeing_stale_readings_are_discarded_without_emission() {
    let mut state = IngestionState::new(0);
    state.on_decoded(reading(1000, 45, 357, 3));
    state.on_decoded(reading(2000, 45, 359, 3));
    let emitted = state.sweep(6_000_000);
    assert!(emitted.is_empty());
    assert!(state.recent_readings[3].is_empty());
}

#[test]
fn sweep_leaves_fresh_channels_untouched() {
    let mut state = IngestionState::new(0);
    state.on_decoded(reading(1000, 45, 357, 3));
    state.on_decoded(reading(2000, 45, 358, 3));
    // Neither entry has aged past the 5000 ms window yet.
    let emitted = state.sweep(4_000_000);
    assert!(emitted.is_empty());
    assert_eq!(state.recent_readings[3].len(), 2);
    assert_eq!(state.recent_readings[3][0].time, 1000);
    assert_eq!(state.recent_readings[3][1].time, 2000);
    // Sweeping again and again changes nothing until an entry goes stale.
    for _ in 0..10 {
        let again = state.sweep(4_000_000);
        assert!(again.is_empty());
        assert_eq!(state.recent_readings[3].len(), 2);
    }
}

#[test]
fn channels_are_decided_independently_and_emitted_in_order() {
    let mut state = IngestionState::new(0);
    state.on_decoded(reading(1000, 45, 357, 5));
    state.on_decoded(reading(2000, 45, 357, 5));
    state.on_decoded(reading(1500, 60, 220, 2));
    state.on_decoded(reading(2500, 60, 220, 2));
    state.on_decoded(reading(5_999_000, 70, 100, 7));
    let emitted = state.sweep(6_000_000);
    assert_eq!(emitted.len(), 2);
    assert_eq!(emitted[0].channel, 2);
    assert_eq!(emitted[1].channel, 5);
    assert!(state.recent_readings[2].is_empty());
    assert!(state.recent_readings[5].is_empty());
    // Channel 7 was not yet due and keeps accumulating evidence.
    assert_eq!(state.recent_readings[7].len(), 1);
}

#[test]
fn staleness_is_measured_against_the_given_now() {
    let mut state = IngestionState::new(0);
    state.on_decoded(reading(1000, 45, 357, 3));
    state.on_decoded(reading(2000, 45, 357, 3));
    // 1000 + 5_000_000 is the first instant the oldest entry counts as stale.
    let emitted = state.sweep(5_000_999);
    assert!(emitted.is_empty());
    assert_eq!(state.recent_readings[3].len(), 2);
    let emitted = state.sweep(5_001_000);
    assert_eq!(emitted.len(), 1);
}
