//! The change filter: decides whether a freshly sampled color differs
//! enough from the last transmitted one to be worth a BLE write.

use vstd::prelude::*;
use crate::color::Rgb;

verus! {

/// Default threshold: a channel counts as changed only when it moves by
/// strictly more than this many steps.
pub const COLOUR_SEND_THRESHOLD: u8 = 2;

/// One channel has changed when the absolute difference between the two
/// values strictly exceeds the threshold.
pub open spec fn spec_channel_changed(colour_1: u8, colour_2: u8, threshold: u8) -> bool {
    (if colour_1 >= colour_2 {
        colour_1 - colour_2
    } else {
        colour_2 - colour_1
    }) > threshold
}

/// A whole color is worth sending when at least one of its channels has
/// changed with respect to the last sent color.
pub open spec fn spec_should_send(last_sent: Rgb, candidate: Rgb, threshold: u8) -> bool {
    ||| spec_channel_changed(last_sent.red, candidate.red, threshold)
    ||| spec_channel_changed(last_sent.green, candidate.green, threshold)
    ||| spec_channel_changed(last_sent.blue, candidate.blue, threshold)
}

/// Compares one channel of two colors against a threshold.
pub fn channel_changed(colour_1: u8, colour_2: u8, threshold: u8) -> (r: bool)
    ensures
        r == spec_channel_changed(colour_1, colour_2, threshold),
{
    if colour_1 >= colour_2 {
        colour_1 - colour_2 > threshold
    } else {
        colour_2 - colour_1 > threshold
    }
}

/// Compares one channel of two colors against the default threshold.
pub fn colour_difference(colour_1: u8, colour_2: u8) -> (r: bool)
    ensures
        r == spec_channel_changed(colour_1, colour_2, COLOUR_SEND_THRESHOLD),
{
    channel_changed(colour_1, colour_2, COLOUR_SEND_THRESHOLD)
}

/// Decides whether `candidate` should be transmitted given the last color
/// actually sent: true iff some channel's absolute difference strictly
/// exceeds the threshold.
pub fn should_send(last_sent: Rgb, candidate: Rgb, threshold: u8) -> (r: bool)
    ensures
        r == spec_should_send(last_sent, candidate, threshold),
{
    channel_changed(last_sent.red, candidate.red, threshold)
        || channel_changed(last_sent.green, candidate.green, threshold)
        || channel_changed(last_sent.blue, candidate.blue, threshold)
}

/// The single piece of persistent loop state: the last color actually
/// transmitted during this run.
pub struct SyncState {
    pub last_sent: Rgb,
}

impl SyncState {
    /// A fresh state holds the black sentinel, never a previously sent
    /// color: every supervised run starts from it.
    pub fn new() -> (s: SyncState)
        ensures
            s.last_sent == Rgb::spec_black(),
    {
        SyncState { last_sent: Rgb::black() }
    }
}

/// Against the sentinel state a first sample is transmitted as soon as any
/// of its channels exceeds the threshold on its own.  (A first sample that
/// sits within the threshold of black on every channel is filtered like
/// any other imperceptible delta.)
pub proof fn lemma_first_sample_sent(candidate: Rgb, threshold: u8)
    requires
        candidate.red > threshold || candidate.green > threshold || candidate.blue > threshold,
    ensures
        spec_should_send(Rgb::spec_black(), candidate, threshold),
{
}

/// The filter is idempotent under repeated identical candidates: once the
/// state holds color `c`, evaluating `c` again never asks for a send.
pub proof fn lemma_filter_idempotent(c: Rgb, threshold: u8)
    ensures
        !spec_should_send(c, c, threshold),
{
}

/// The filter is symmetric in its two colors: only the absolute difference
/// of each channel matters.
pub proof fn lemma_filter_symmetric(a: Rgb, b: Rgb, threshold: u8)
    ensures
        spec_should_send(a, b, threshold) == spec_should_send(b, a, threshold),
{
}

} // verus!
