//! The frame codec: recognizes message boundaries in a raw buffer,
//! validates the checksum, and dispatches to the record decoder named by
//! the frame identifier.
//!
//! A frame is `identifier (2 bytes, big-endian) | control | length N |
//! payload (N bytes) | checksum (2 bytes, big-endian) | terminator`, so a
//! complete frame is exactly `7 + N` bytes long.

use crate::checksum::spec_checksum;
use crate::checksum::verify_checksum;
use crate::detail::detail_matches;
use crate::detail::detail_payload_ok;
use crate::detail::BatteryDetail;
use crate::protect::protect_matches;
use crate::protect::protect_payload_ok;
use crate::protect::BatteryProtect;
use crate::util::spec_u16_from_bytes;
use crate::util::u16_from_bytes;
use crate::voltage::spec_cells;
use crate::voltage::voltage_payload_ok;
use crate::voltage::BatteryVoltage;
use crate::ParseError;
use vstd::prelude::*;
use vstd::slice::slice_subrange;

verus! {

/// A decoded telemetry message, one variant per known frame identifier.
#[derive(Debug, PartialEq, Eq)]
pub enum Message {
    Voltage(BatteryVoltage),
    Detail(BatteryDetail),
    Protect(BatteryProtect),
}

/// A message could not be decoded.
#[derive(Clone, Copy, Debug, PartialEq, Eq, Structural)]
pub struct ParseMessageFailed;

/// A buffer holds a complete frame when it has the 7 framing bytes and as
/// many payload bytes as its length byte declares.  Appending bytes never
/// makes a complete buffer incomplete.
pub open spec fn spec_is_complete(msg: Seq<u8>) -> bool {
    msg.len() >= 7 && msg.len() >= 7 + msg[3]
}

/// A buffer is exactly one frame: 7 framing bytes plus the declared payload.
pub open spec fn frame_len_ok(msg: Seq<u8>) -> bool {
    msg.len() >= 7 && msg.len() == 7 + msg[3]
}

/// The frame identifier, from the first two bytes.
pub open spec fn frame_identifier(msg: Seq<u8>) -> u16 {
    spec_u16_from_bytes(msg[0], msg[1])
}

/// The frame payload: the declared number of bytes after the length byte.
pub open spec fn frame_payload(msg: Seq<u8>) -> Seq<u8> {
    msg.subrange(4, 4 + msg[3])
}

/// The checksum carried in the frame trailer, before the terminator byte.
pub open spec fn frame_checksum(msg: Seq<u8>) -> u16 {
    spec_u16_from_bytes(msg[msg.len() - 3], msg[msg.len() - 2])
}

/// The carried checksum covers the control byte and payload.
pub open spec fn frame_checksum_ok(msg: Seq<u8>) -> bool {
    frame_checksum(msg) == spec_checksum(frame_payload(msg), msg[2])
}

/// Whether `id` names one of the three known message kinds.
pub open spec fn known_identifier(id: u16) -> bool {
    id == 0xdd03 || id == 0xdd04 || id == 0xddaa
}

/// Whether the payload decodes under the record type its identifier names.
pub open spec fn payload_decodes(msg: Seq<u8>) -> bool {
    if frame_identifier(msg) == 0xdd03 {
        detail_payload_ok(frame_payload(msg))
    } else if frame_identifier(msg) == 0xdd04 {
        voltage_payload_ok(frame_payload(msg))
    } else {
        protect_payload_ok(frame_payload(msg))
    }
}

/// A buffer decodes to a message exactly when it is one whole frame whose
/// checksum matches, whose identifier is known, and whose payload decodes.
pub open spec fn message_ok(msg: Seq<u8>) -> bool {
    frame_len_ok(msg) && frame_checksum_ok(msg) && known_identifier(frame_identifier(msg))
        && payload_decodes(msg)
}

/// The error decoding reports for a buffer that holds no message.
pub open spec fn spec_parse_failure(msg: Seq<u8>) -> ParseError
    recommends
        !message_ok(msg),
{
    if !frame_len_ok(msg) {
        ParseError::NotEnoughData
    } else if !frame_checksum_ok(msg) {
        ParseError::InvalidChecksum
    } else if !known_identifier(frame_identifier(msg)) {
        ParseError::InvalidData
    } else {
        ParseError::NotEnoughData
    }
}

/// Whether `m` is the message the frame in `msg` encodes.
pub open spec fn message_matches(msg: Seq<u8>, m: Message) -> bool {
    match m {
        Message::Voltage(bv) => frame_identifier(msg) == 0xdd04 && bv@ == spec_cells(
            frame_payload(msg),
        ),
        Message::Detail(d) => frame_identifier(msg) == 0xdd03 && detail_matches(
            frame_payload(msg),
            d,
        ),
        Message::Protect(p) => frame_identifier(msg) == 0xddaa && protect_matches(
            frame_payload(msg),
            p,
        ),
    }
}

impl Message {
    /// Whether the buffer already holds a whole frame.  Re-evaluated on
    /// every appended fragment by the reassembly loop.
    pub fn is_complete_message(msg: &[u8]) -> (r: bool)
        ensures
            r == spec_is_complete(msg@),
    {
        if msg.len() < 7 {
            return false;
        }

        let len = msg[3] as usize;
        msg.len() >= 7 + len
    }

    /// Decode one frame: check the length accounting, verify the checksum,
    /// then decode the payload under the identified record type.
    pub fn parse_message(msg: &[u8]) -> (r: Result<Message, ParseError>)
        ensures
            match r {
                Ok(m) => message_ok(msg@) && message_matches(msg@, m),
                Err(e) => !message_ok(msg@) && e == spec_parse_failure(msg@),
            },
    {
        if msg.len() < 7 {
            return Err(ParseError::NotEnoughData);
        }

        let identifier = u16_from_bytes(slice_subrange(msg, 0, 2));
        let control = msg[2];
        let len = msg[3] as usize;
        let checksum = u16_from_bytes(slice_subrange(msg, msg.len() - 3, msg.len() - 1));

        if msg.len() != 7 + len {
            return Err(ParseError::NotEnoughData);
        }

        let payload = slice_subrange(msg, 4, 4 + len);
        if !verify_checksum(checksum, payload, control) {
            return Err(ParseError::InvalidChecksum);
        }

        if identifier == 0xdd03 {
            match BatteryDetail::parse_message(payload) {
                Ok(d) => Ok(Message::Detail(d)),
                Err(e) => Err(e),
            }
        } else if identifier == 0xdd04 {
            match BatteryVoltage::parse_message(payload) {
                Ok(bv) => Ok(Message::Voltage(bv)),
                Err(e) => Err(e),
            }
        } else if identifier == 0xddaa {
            match BatteryProtect::parse_message(payload) {
                Ok(p) => Ok(Message::Protect(p)),
                Err(e) => Err(e),
            }
        } else {
            Err(ParseError::InvalidData)
        }
    }
}

/// Once a buffer holds a complete frame, further fragments cannot make it
/// incomplete: completeness is stable under appending.
pub proof fn lemma_complete_is_stable(msg: Seq<u8>, more: Seq<u8>)
    requires
        spec_is_complete(msg),
    ensures
        spec_is_complete(msg + more),
{
    assert((msg + more)[3] == msg[3]);
}

/// Fragment boundaries never affect decoding: two fragment sequences with
/// the same concatenation are one and the same buffer to the codec, so
/// completeness, decodability, the decoded message and the reported error
/// all coincide.
pub proof fn lemma_rechunking_preserves_decode(a: Seq<Seq<u8>>, b: Seq<Seq<u8>>)
    requires
        a.flatten() == b.flatten(),
    ensures
        spec_is_complete(a.flatten()) == spec_is_complete(b.flatten()),
        message_ok(a.flatten()) == message_ok(b.flatten()),
        forall|m: Message| message_matches(a.flatten(), m) == message_matches(b.flatten(), m),
        spec_parse_failure(a.flatten()) == spec_parse_failure(b.flatten()),
{
}

} // verus!
