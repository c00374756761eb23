//! The per-cycle step of the light sync loop: reduce a captured frame to
//! its dominant color, run it through the change filter, and tell the
//! caller what to do next.  The caller performs the capture, the waits
//! and the BLE write, and feeds every result back in as a plain value.

use vstd::prelude::*;
use crate::color::Rgb;
use crate::filter::{SyncState, spec_should_send, should_send};

verus! {

/// What one poll of the capture backend produced.
pub enum CaptureEvent {
    /// A frame is available: its flat pixel buffer, 3 bytes per pixel.
    Frame(Vec<u8>),
    /// No frame ready yet; the backend was probed without blocking.
    NotReady,
    /// The backend reported a real error; the current run is over.
    Failed,
}

/// What the caller must do after one step.
#[derive(Clone, Copy, PartialEq, Eq, Structural, Debug)]
pub enum StepAction {
    /// Transmit this color to the fixture, then sleep out the cadence.
    Send(Rgb),
    /// The sampled color was too close to the last sent one: transmit
    /// nothing, just sleep out the cadence.
    Skip,
    /// Wait a short poll interval, then probe the backend again.
    Wait,
    /// Unrecoverable: tear the run down and report to the supervisor.
    Abort,
}

/// What `get_colors` returns on a flat 3-byte-per-pixel buffer: the
/// dominant colors, most dominant first, 3 bytes each.
pub uninterp spec fn dominant_colors_of(pixels: Seq<u8>) -> Seq<u8>;

/// Relies on dominant_color::get_colors with has_alpha = false: a
/// deterministic reduction of a flat 3-byte-per-pixel buffer to a list of
/// dominant colors, 3 bytes per color, most dominant first; every group
/// of 3 bytes is pushed whole.
#[verifier::external_body]
fn extract_dominant(pixels: &Vec<u8>) -> (r: Vec<u8>)
    ensures
        r@ == dominant_colors_of(pixels@),
        r@.len() % 3 == 0,
{
    dominant_color::get_colors(pixels.as_slice(), false)
}

/// The extractor hands channels out in the reverse of the protocol's
/// order: its third value is transmitted as red and its first as blue.
/// This mapping is deliberate and must match the extractor in use.
pub open spec fn spec_mapped_color(colors: Seq<u8>) -> Rgb
    recommends
        colors.len() >= 3,
{
    Rgb { red: colors[2], green: colors[1], blue: colors[0] }
}

/// The step on an available frame, as a function of the extracted color
/// list: the new state and the action.  An extractor output too short to
/// hold one color aborts the run; otherwise the change filter decides,
/// and the state advances exactly when a send is asked for.
pub open spec fn spec_apply_colors(state: SyncState, colors: Seq<u8>, threshold: u8) -> (
    SyncState,
    StepAction,
) {
    if colors.len() < 3 {
        (state, StepAction::Abort)
    } else {
        let c = spec_mapped_color(colors);
        if spec_should_send(state.last_sent, c, threshold) {
            (SyncState { last_sent: c }, StepAction::Send(c))
        } else {
            (state, StepAction::Skip)
        }
    }
}

/// Runs the change filter on one extracted color list and updates the
/// loop state when the color is to be transmitted.
pub fn apply_colors(state: &mut SyncState, colors: &Vec<u8>, threshold: u8) -> (action: StepAction)
    ensures
        (*final(state), action) == spec_apply_colors(*old(state), colors@, threshold),
{
    if colors.len() < 3 {
        StepAction::Abort
    } else {
        let candidate = Rgb { red: colors[2], green: colors[1], blue: colors[0] };
        if should_send(state.last_sent, candidate, threshold) {
            state.last_sent = candidate;
            StepAction::Send(candidate)
        } else {
            StepAction::Skip
        }
    }
}

/// One cycle of the light sync loop.  A pending backend leaves the state
/// untouched and asks the caller to wait; a backend failure aborts; an
/// available frame is reduced to its dominant colors and handed to the
/// change filter.
pub fn sync_step(state: &mut SyncState, event: CaptureEvent, threshold: u8) -> (action: StepAction)
    ensures
        event matches CaptureEvent::NotReady ==> *final(state) == *old(state) && action
            == StepAction::Wait,
        event matches CaptureEvent::Failed ==> *final(state) == *old(state) && action
            == StepAction::Abort,
        event matches CaptureEvent::Frame(pixels) ==> (*final(state), action) == spec_apply_colors(
            *old(state),
            dominant_colors_of(pixels@),
            threshold,
        ),
{
    match event {
        CaptureEvent::NotReady => StepAction::Wait,
        CaptureEvent::Failed => StepAction::Abort,
        CaptureEvent::Frame(pixels) => {
            let colors = extract_dominant(&pixels);
            apply_colors(state, &colors, threshold)
        },
    }
}

/// The state never moves except to the exact color whose transmission was
/// asked for: a skipped, waiting or aborting step leaves it untouched.
pub proof fn lemma_state_tracks_sends(state: SyncState, colors: Seq<u8>, threshold: u8)
    ensures
        ({
            let (next, action) = spec_apply_colors(state, colors, threshold);
            match action {
                StepAction::Send(c) => next.last_sent == c,
                _ => next == state,
            }
        }),
{
}

} // verus!
