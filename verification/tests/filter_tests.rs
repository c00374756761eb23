use lightsync::color::Rgb;
use lightsync::filter::{colour_difference, should_send, SyncState, COLOUR_SEND_THRESHOLD};

#[test]
fn threshold_is_strict() {
    assert_eq!(COLOUR_SEND_THRESHOLD, 2);
    // A difference of exactly the threshold does not count as changed.
    let last = Rgb { red: 10, green: 10, blue: 10 };
    assert!(!should_send(last, Rgb { red: 12, green: 10, blue: 10 }, 2));
    assert!(should_send(last, Rgb { red: 13, green: 10, blue: 10 }, 2));
}

#[test]
fn any_channel_suffices() {
    let last = Rgb { red: 100, green: 100, blue: 100 };
    assert!(should_send(last, Rgb { red: 100, green: 100, blue: 103 }, 2));
    assert!(should_send(last, Rgb { red: 100, green: 97, blue: 100 }, 2));
    assert!(!should_send(last, Rgb { red: 102, green: 98, blue: 101 }, 2));
}

#[test]
fn colour_difference_small_values_do_not_underflow() {
    // Differences in either direction near zero are judged by absolute
    // value, never by wrapping subtraction.
    assert!(!colour_difference(0, 1));
    assert!(!colour_difference(1, 0));
    assert!(!colour_difference(0, 2));
    assert!(colour_difference(0, 3));
    assert!(colour_difference(3, 0));
    assert!(colour_difference(255, 0));
    assert!(!colour_difference(255, 254));
}

#[test]
fn first_sample_from_sentinel_is_sent() {
    let state = SyncState::new();
    assert_eq!(state.last_sent, Rgb { red: 0, green: 0, blue: 0 });
    // However small, as long as one channel clears the threshold on its own.
    assert!(should_send(state.last_sent, Rgb { red: 3, green: 0, blue: 0 }, 2));
    assert!(should_send(state.last_sent, Rgb { red: 0, green: 0, blue: 255 }, 2));
}

#[test]
fn repeated_identical_candidate_is_filtered() {
    // After a send of X the state holds X; re-evaluating X returns false.
    let x = Rgb { red: 200, green: 50, blue: 10 };
    let state = SyncState { last_sent: x };
    assert!(!should_send(state.last_sent, x, 2));
    assert!(!should_send(state.last_sent, x, 0));
}
