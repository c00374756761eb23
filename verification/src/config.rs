//! The configuration the supervisor is started with: target device name,
//! target characteristic identifier, filter threshold and the loop's
//! timing constants, with the observed defaults.

use vstd::prelude::*;
use crate::filter::COLOUR_SEND_THRESHOLD;

verus! {

/// Bounded discovery window, in seconds.
pub const SLEEP_TO_FIND_DEVICE_S: u64 = 1;

/// Target period of one sync-loop cycle, in milliseconds.
pub const SLEEP_BETWEEN_UPDATES_MS: u64 = 30;

/// Back-off before probing the capture backend again, in milliseconds.
pub const SLEEP_WAIT_FOR_FRAMES_MS: u64 = 10;

/// The advertised name of the observed fixture, as ASCII bytes:
/// `ihoment_H6181_9F87`.
pub open spec fn spec_default_device_name() -> Seq<u8> {
    seq![
        0x69u8, 0x68u8, 0x6Fu8, 0x6Du8, 0x65u8, 0x6Eu8, 0x74u8, 0x5Fu8, 0x48u8, 0x36u8, 0x31u8,
        0x38u8, 0x31u8, 0x5Fu8, 0x39u8, 0x46u8, 0x38u8, 0x37u8,
    ]
}

/// The observed command characteristic identifier,
/// `00010203-0405-0607-0809-0A0B0C0D2B11`, as its 16 bytes.
pub open spec fn spec_default_characteristic_uuid() -> Seq<u8> {
    seq![
        0x00u8, 0x01u8, 0x02u8, 0x03u8, 0x04u8, 0x05u8, 0x06u8, 0x07u8, 0x08u8, 0x09u8, 0x0Au8,
        0x0Bu8, 0x0Cu8, 0x0Du8, 0x2Bu8, 0x11u8,
    ]
}

/// Everything a supervised run is parameterized over.  No process-wide
/// mutable state: one value of this type is handed to the supervisor at
/// startup and read from there on.
pub struct Config {
    /// Substring to look for in advertised peripheral names.
    pub device_name: Vec<u8>,
    /// The 16 bytes of the command characteristic's identifier.
    pub characteristic_uuid: Vec<u8>,
    /// Change-filter threshold, in channel steps.
    pub threshold: u8,
    /// Sleep between sync-loop cycles, in milliseconds.
    pub cadence_ms: u64,
    /// Sleep before re-probing an empty capture backend, in milliseconds.
    pub poll_ms: u64,
    /// How long to let a scan run before reading its results, in seconds.
    pub discovery_window_s: u64,
}

impl Config {
    /// A characteristic identifier always holds exactly 16 bytes.
    pub open spec fn well_formed(self) -> bool {
        self.characteristic_uuid@.len() == 16
    }

    /// The observed configuration: the fixture and timing constants the
    /// system was measured with.
    pub fn defaults() -> (c: Config)
        ensures
            c.device_name@ == spec_default_device_name(),
            c.characteristic_uuid@ == spec_default_characteristic_uuid(),
            c.threshold == COLOUR_SEND_THRESHOLD,
            c.cadence_ms == SLEEP_BETWEEN_UPDATES_MS,
            c.poll_ms == SLEEP_WAIT_FOR_FRAMES_MS,
            c.discovery_window_s == SLEEP_TO_FIND_DEVICE_S,
            c.well_formed(),
    {
        let device_name: Vec<u8> = vec![
            0x69u8, 0x68u8, 0x6Fu8, 0x6Du8, 0x65u8, 0x6Eu8, 0x74u8, 0x5Fu8, 0x48u8, 0x36u8,
            0x31u8, 0x38u8, 0x31u8, 0x5Fu8, 0x39u8, 0x46u8, 0x38u8, 0x37u8,
        ];
        let characteristic_uuid: Vec<u8> = vec![
            0x00u8, 0x01u8, 0x02u8, 0x03u8, 0x04u8, 0x05u8, 0x06u8, 0x07u8, 0x08u8, 0x09u8,
            0x0Au8, 0x0Bu8, 0x0Cu8, 0x0Du8, 0x2Bu8, 0x11u8,
        ];
        proof {
            assert(device_name@ =~= spec_default_device_name());
            assert(characteristic_uuid@ =~= spec_default_characteristic_uuid());
        }
        Config {
            device_name,
            characteristic_uuid,
            threshold: COLOUR_SEND_THRESHOLD,
            cadence_ms: SLEEP_BETWEEN_UPDATES_MS,
            poll_ms: SLEEP_WAIT_FOR_FRAMES_MS,
            discovery_window_s: SLEEP_TO_FIND_DEVICE_S,
        }
    }
}

} // verus!
