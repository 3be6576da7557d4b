//! Codec and exchange logic for the ACES battery-management-unit telemetry
//! protocol.
//!
//! The protocol frames every message as a 7-byte-minimum packet: a two-byte
//! identifier, a control byte, a payload-length byte, the payload, a two-byte
//! checksum and a terminator byte.  This crate decodes the three known
//! telemetry records (cell voltages, battery detail, protection status),
//! reassembles frames from arbitrarily split transport fragments, and drives
//! the request/response exchange in both the client role and the mock-server
//! role.  Transport delivery (Bluetooth LE in the shipped applications) stays
//! outside the crate, behind the [`NotificationsReceiver`] and [`ByteSink`]
//! traits.

use vstd::prelude::*;

mod checksum;
mod detail;
mod message;
mod ntc;
mod protect;
mod protection_of_state;
mod queue;
mod request;
mod response;
mod server;
mod util;
mod voltage;

pub use checksum::byte_sum;
pub use checksum::calculate_checksum;
pub use checksum::lemma_calculate_verifies;
pub use checksum::spec_checksum;
pub use checksum::spec_checksum_matches;
pub use checksum::verify_checksum;
pub use detail::BatteryDetail;
pub use detail::detail_matches;
pub use detail::detail_payload_ok;
pub use message::frame_checksum;
pub use message::frame_checksum_ok;
pub use message::frame_identifier;
pub use message::frame_len_ok;
pub use message::frame_payload;
pub use message::known_identifier;
pub use message::lemma_complete_is_stable;
pub use message::lemma_rechunking_preserves_decode;
pub use message::Message;
pub use message::message_matches;
pub use message::message_ok;
pub use message::ParseMessageFailed;
pub use message::payload_decodes;
pub use message::spec_is_complete;
pub use message::spec_parse_failure;
pub use ntc::ntc_payload_ok;
pub use ntc::NtcList;
pub use ntc::spec_ntc_reading;
pub use ntc::spec_ntc_readings;
pub use protect::BatteryProtect;
pub use protect::protect_matches;
pub use protect::protect_payload_ok;
pub use protect::spec_protect_field;
pub use protection_of_state::ProtectionOfState;
pub use queue::TransportQueue;
pub use request::Request;
pub use request::spec_parse_request;
pub use request::spec_request_bytes;
pub use response::Response;
pub use response::response_matches;
pub use server::response_for_request;
pub use server::spec_next_notification;
pub use server::spec_response_for_request;
pub use server::state_disconnected;
pub use server::state_notify;
pub use server::state_read_request;
pub use server::state_write_response;
pub use server::StateMachine;
pub use util::bytes_eq;
pub use util::i16_from_bytes;
pub use util::spec_i16_from_bytes;
pub use util::spec_u16_from_bytes;
pub use util::u16_from_bytes;
pub use voltage::BatteryVoltage;
pub use voltage::lemma_total_bounds;
pub use voltage::spec_cells;
pub use voltage::spec_mean;
pub use voltage::spec_seq_max;
pub use voltage::spec_seq_min;
pub use voltage::spec_total;
pub use voltage::voltage_payload_ok;

verus! {

/// The 16-bit UUID of the GATT service the device exposes.
pub const SERVICE_UUID: u16 = 0xff00;

/// The 16-bit UUID of the characteristic the device notifies on.
pub const RX_UUID: u16 = 0xff01;

/// The 16-bit UUID of the characteristic commands are written to.
pub const TX_UUID: u16 = 0xff02;

/// Outcome of decoding a byte buffer that should hold a protocol message.
///
/// `NotEnoughData` is recoverable by reading further fragments; the other two
/// signal a malformed or unrecognized frame.
#[derive(Clone, Copy, Debug, PartialEq, Eq, Structural)]
pub enum ParseError {
    NotEnoughData,
    InvalidChecksum,
    InvalidData,
}

/// An opaque failure of the transport under the byte sink; the exchange
/// passes it through unchanged.
#[derive(Clone, Copy, Debug, PartialEq, Eq, Structural)]
pub struct TransportError;

/// Why a request/response round trip failed.
#[derive(Clone, Copy, Debug, PartialEq, Eq, Structural)]
pub enum RequestError {
    /// The command could not be written to the transport.
    Transport(TransportError),
    /// The reply was missing, malformed, or of a different kind than the
    /// command asked for.
    WrongNotificationReceived,
}

/// The byte producer: yields the next raw transport fragment, blocking
/// until one is available.
///
/// A fragment may split a frame at any offset, but is never empty: the
/// transport only reports deliveries that carried data.  Implementations
/// outside this crate are not verified against the contract and must
/// uphold it themselves.
pub trait NotificationsReceiver {
    fn next(&mut self) -> (fragment: Vec<u8>)
        ensures
            fragment@.len() > 0,
    ;
}

/// The byte sink: accepts a buffer to transmit, optionally requesting
/// acknowledgment, and reports transport failures unchanged.
pub trait ByteSink {
    fn send(&mut self, value: &[u8], request_ack: bool) -> Result<(), TransportError>;
}

/// How many further bytes could still be needed before the buffer must
/// hold a complete frame.  A frame is at most `7 + 255` bytes, so a buffer
/// of that length is always complete.
pub open spec fn spec_bytes_until_complete(resp: Seq<u8>) -> int {
    if resp.len() >= 262 {
        0
    } else {
        262 - resp.len()
    }
}

/// Pull fragments from the producer and concatenate them until the buffer
/// holds a complete frame.  Fragment boundaries are never inspected;
/// completeness rests on the length-prefix accounting alone.  A producer
/// that never yields enough bytes blocks forever in `next`; no timeout
/// exists at this layer.
pub fn read_complete_response<N: NotificationsReceiver>(receiver: &mut N) -> (resp: Vec<u8>)
    ensures
        spec_is_complete(resp@),
{
    let mut resp: Vec<u8> = Vec::new();
    while !Response::is_complete_response(resp.as_slice())
        decreases spec_bytes_until_complete(resp@),
    {
        let mut val = receiver.next();
        resp.append(&mut val);
    }
    resp
}

/// Whether `total` is the cell-voltage sum of some well-formed voltage
/// frame.
pub open spec fn is_total_of_valid_frame(total: i64) -> bool {
    exists|resp: Seq<u8>, bv: BatteryVoltage|
        message_ok(resp) && #[trigger] message_matches(resp, Message::Voltage(bv)) && total
            == spec_total(bv@)
}

/// Read one complete frame and return the state of charge: the total of
/// the voltage record it holds.  Anything other than a well-formed voltage
/// frame is a wrong notification.
pub fn read_soc<N: NotificationsReceiver>(receiver: &mut N) -> (r: Result<i64, RequestError>)
    ensures
        match r {
            Ok(total) => is_total_of_valid_frame(total),
            Err(e) => e == RequestError::WrongNotificationReceived,
        },
{
    let resp = read_complete_response(receiver);
    match Response::parse_response(resp.as_slice()) {
        Ok(Response::BatteryVoltage(bv)) => {
            let total = bv.total();
            proof {
                assert(message_ok(resp@) && message_matches(resp@, Message::Voltage(bv)) && total
                    == spec_total(bv@));
            }
            Ok(total)
        },
        _ => Err(RequestError::WrongNotificationReceived),
    }
}

/// Whether `d` is the record of some well-formed detail frame.
pub open spec fn is_detail_of_valid_frame(d: BatteryDetail) -> bool {
    exists|resp: Seq<u8>| message_ok(resp) && #[trigger] message_matches(resp, Message::Detail(d))
}

/// Whether `p` is the record of some well-formed protection frame.
pub open spec fn is_protect_of_valid_frame(p: BatteryProtect) -> bool {
    exists|resp: Seq<u8>| message_ok(resp) && #[trigger] message_matches(resp, Message::Protect(p))
}

/// Read one complete frame and return the detail record it holds.
/// Anything other than a well-formed detail frame is a wrong notification.
pub fn read_detail<N: NotificationsReceiver>(receiver: &mut N) -> (r: Result<
    BatteryDetail,
    RequestError,
>)
    ensures
        match r {
            Ok(d) => is_detail_of_valid_frame(d),
            Err(e) => e == RequestError::WrongNotificationReceived,
        },
{
    let resp = read_complete_response(receiver);
    match Response::parse_response(resp.as_slice()) {
        Ok(Response::BatteryDetail(d)) => {
            proof {
                assert(message_ok(resp@) && message_matches(resp@, Message::Detail(d)));
            }
            Ok(d)
        },
        _ => Err(RequestError::WrongNotificationReceived),
    }
}

/// Read one complete frame and return the protection-status record it
/// holds.  Anything other than a well-formed protection frame is a wrong
/// notification.
pub fn read_protect<N: NotificationsReceiver>(receiver: &mut N) -> (r: Result<
    BatteryProtect,
    RequestError,
>)
    ensures
        match r {
            Ok(p) => is_protect_of_valid_frame(p),
            Err(e) => e == RequestError::WrongNotificationReceived,
        },
{
    let resp = read_complete_response(receiver);
    match Response::parse_response(resp.as_slice()) {
        Ok(Response::BatteryProtect(p)) => {
            proof {
                assert(message_ok(resp@) && message_matches(resp@, Message::Protect(p)));
            }
            Ok(p)
        },
        _ => Err(RequestError::WrongNotificationReceived),
    }
}

/// Write the voltage command, then read and unwrap the reply as
/// [`read_soc`] does.  A transport failure is passed through unchanged;
/// exactly one round trip is outstanding at a time.
pub fn request_soc<S: ByteSink, N: NotificationsReceiver>(sink: &mut S, receiver: &mut N) -> (r:
    Result<i64, RequestError>)
    ensures
        match r {
            Ok(total) => is_total_of_valid_frame(total),
            Err(e) => e matches RequestError::Transport(_) || e
                == RequestError::WrongNotificationReceived,
        },
{
    let command = Request::BatteryVoltage.bytes();
    match sink.send(command.as_slice(), false) {
        Ok(()) => read_soc(receiver),
        Err(t) => Err(RequestError::Transport(t)),
    }
}

/// Write the detail command, then read and unwrap the reply as
/// [`read_detail`] does.  A transport failure is passed through unchanged.
pub fn request_detail<S: ByteSink, N: NotificationsReceiver>(sink: &mut S, receiver: &mut N) -> (r:
    Result<BatteryDetail, RequestError>)
    ensures
        match r {
            Ok(d) => is_detail_of_valid_frame(d),
            Err(e) => e matches RequestError::Transport(_) || e
                == RequestError::WrongNotificationReceived,
        },
{
    let command = Request::BatteryDetail.bytes();
    match sink.send(command.as_slice(), false) {
        Ok(()) => read_detail(receiver),
        Err(t) => Err(RequestError::Transport(t)),
    }
}

/// Write the protection command, then read and unwrap the reply as
/// [`read_protect`] does.  A transport failure is passed through
/// unchanged.
pub fn request_protect<S: ByteSink, N: NotificationsReceiver>(sink: &mut S, receiver: &mut N) -> (r:
    Result<BatteryProtect, RequestError>)
    ensures
        match r {
            Ok(p) => is_protect_of_valid_frame(p),
            Err(e) => e matches RequestError::Transport(_) || e
                == RequestError::WrongNotificationReceived,
        },
{
    let command = Request::BatteryProtect.bytes();
    match sink.send(command.as_slice(), false) {
        Ok(()) => read_protect(receiver),
        Err(t) => Err(RequestError::Transport(t)),
    }
}

} // verus!
