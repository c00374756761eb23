//! The packet encoder: turns an RGB color into the fixture's 20-byte
//! command frame, with a trailing XOR checksum.

use vstd::prelude::*;
use crate::color::Rgb;

verus! {

/// Length of every command frame on the wire.
pub const FRAME_LEN: usize = 20;

/// First byte of every command frame.
pub const COMMAND_DELIMITER: u8 = 0x33;

/// Operation code for "change color".
pub const OP_CHANGE_COLOUR: u8 = 0x05;

/// Mode code for "manual color".
pub const MODE_MANUAL: u8 = 0x02;

/// XOR-fold of a byte sequence, the protocol's checksum.
pub open spec fn xor_fold(s: Seq<u8>) -> u8
    decreases s.len(),
{
    if s.len() == 0 {
        0
    } else {
        xor_fold(s.drop_last()) ^ s.last()
    }
}

/// The 19 payload bytes of a "change color" frame: delimiter, operation,
/// mode, the three channels red-green-blue, then zero padding.
pub open spec fn spec_frame_body(c: Rgb) -> Seq<u8> {
    seq![
        COMMAND_DELIMITER,
        OP_CHANGE_COLOUR,
        MODE_MANUAL,
        c.red,
        c.green,
        c.blue,
        0u8, 0u8, 0u8, 0u8, 0u8, 0u8, 0u8, 0u8, 0u8, 0u8, 0u8, 0u8, 0u8,
    ]
}

/// A whole frame: the payload followed by its checksum byte, recomputed
/// on every encode.
pub open spec fn spec_encode(c: Rgb) -> Seq<u8> {
    spec_frame_body(c).push(xor_fold(spec_frame_body(c)))
}

/// Encodes a color as the fixture's "change color" command frame.  Pure
/// and total: the frame is a function of the color alone.
pub fn encode(color: Rgb) -> (frame: Vec<u8>)
    ensures
        frame@ == spec_encode(color),
        frame@.len() == FRAME_LEN,
{
    let mut frame: Vec<u8> = Vec::new();
    frame.push(COMMAND_DELIMITER);
    frame.push(OP_CHANGE_COLOUR);
    frame.push(MODE_MANUAL);
    frame.push(color.red);
    frame.push(color.green);
    frame.push(color.blue);
    let mut pad: usize = 0;
    while pad < 13
        invariant
            pad <= 13,
            frame@.len() == 6 + pad,
            frame@ == spec_frame_body(color).subrange(0, 6 + pad as int),
        decreases 13 - pad,
    {
        frame.push(0u8);
        proof {
            assert(frame@ =~= spec_frame_body(color).subrange(0, 6 + pad as int + 1));
        }
        pad = pad + 1;
    }
    proof {
        assert(frame@ =~= spec_frame_body(color));
    }
    let mut check: u8 = 0;
    let mut i: usize = 0;
    while i < 19
        invariant
            i <= 19,
            frame@ == spec_frame_body(color),
            check == xor_fold(frame@.subrange(0, i as int)),
        decreases 19 - i,
    {
        check = check ^ frame[i];
        proof {
            assert(frame@.subrange(0, i as int + 1).drop_last() =~= frame@.subrange(0, i as int));
            assert(frame@.subrange(0, i as int + 1).last() == frame@[i as int]);
        }
        i = i + 1;
    }
    proof {
        assert(frame@.subrange(0, 19) =~= frame@);
    }
    frame.push(check);
    frame
}

/// The trailing byte of every encoded frame equals the XOR-fold of the 19
/// bytes before it, and the layout is fixed: delimiter, operation, mode,
/// red, green, blue, zero padding.
pub proof fn lemma_encode_checksum(c: Rgb)
    ensures
        spec_encode(c).len() == FRAME_LEN,
        spec_encode(c).last() == xor_fold(spec_encode(c).drop_last()),
        spec_encode(c)[0] == COMMAND_DELIMITER,
        spec_encode(c)[1] == OP_CHANGE_COLOUR,
        spec_encode(c)[2] == MODE_MANUAL,
        spec_encode(c)[3] == c.red,
        spec_encode(c)[4] == c.green,
        spec_encode(c)[5] == c.blue,
        forall|i: int| 6 <= i < 19 ==> spec_encode(c)[i] == 0u8,
{
    assert(spec_encode(c).drop_last() =~= spec_frame_body(c));
}

/// Encoding is deterministic and stateless: frames for one and the same
/// color are byte-identical, whenever they are computed.
pub proof fn lemma_encode_deterministic(c1: Rgb, c2: Rgb)
    requires
        c1 == c2,
    ensures
        spec_encode(c1) == spec_encode(c2),
{
}

} // verus!
