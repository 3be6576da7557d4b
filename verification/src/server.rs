//! The mock-server role: the state machine that recognizes inbound command
//! frames and answers them with canned response frames, falling back to an
//! idle notification cycle while no command arrives.
//!
//! Each transition is a pure function from the current state and the event
//! the caller observed to the next state and, possibly, a buffer to publish
//! on the transport.  The surrounding application owns the device: it polls
//! for inbound writes, hands the outcome in as the event, and publishes the
//! returned buffer.

use crate::request::spec_parse_request;
use crate::request::Request;
use vstd::prelude::*;

verus! {

/// The mock server's state.
#[derive(Debug, PartialEq, Eq)]
pub enum StateMachine {
    /// No client is connected; partial buffers are discarded.
    Disconnected,
    /// Connected and idle: cycling unsolicited notifications, carrying the
    /// kind to emit next.
    Notify(Request),
    /// Accumulating an inbound command; carries the partial buffer.
    ReadRequest(Vec<u8>),
    /// A recognized command awaits its reply; carries the response bytes.
    WriteResponse(Vec<u8>),
}

/// The canned frame the server answers each command with.  The clear
/// command gets no reply.
pub open spec fn spec_response_for_request(req: Request) -> Seq<u8> {
    match req {
        Request::Clear => Seq::<u8>::empty(),
        Request::BatteryDetail => seq![
            0xddu8, 0x03, 0x00, 0x1d, 0x05, 0x38, 0x02, 0x83, 0x17, 0x5c, 0x27, 0xde, 0x00, 0x09,
            0x2b, 0x94, 0x00, 0x00, 0x00, 0x00, 0x00, 0x00, 0x20, 0x3b, 0x03, 0x04, 0x03, 0x0b,
            0x7f, 0x0b, 0x6c, 0x0b, 0x69, 0xfb, 0x07, 0x77,
        ],
        Request::BatteryVoltage => seq![
            0xddu8, 0x04, 0x00, 0x08, 0x0d, 0xe2, 0x0d, 0xdc, 0x0d, 0xec, 0x0d, 0xed, 0xfc, 0x2d,
            0x77,
        ],
        Request::BatteryProtect => seq![
            0xddu8, 0xaa, 0x00, 0x16, 0x00, 0x00, 0x00, 0x00, 0x00, 0x00, 0x00, 0x00, 0x00, 0x04,
            0x00, 0x00, 0x00, 0x00, 0x00, 0x00, 0x00, 0x00, 0x00, 0x00, 0x00, 0x00, 0xff, 0xe6,
            0x77,
        ],
    }
}

/// The next kind in the idle notification cycle: detail, protection,
/// voltage, round again.
pub open spec fn spec_next_notification(req: Request) -> Request
    recommends
        req != Request::Clear,
{
    match req {
        Request::BatteryDetail => Request::BatteryProtect,
        Request::BatteryProtect => Request::BatteryVoltage,
        Request::BatteryVoltage => Request::BatteryDetail,
        Request::Clear => Request::Clear,
    }
}

/// The canned frame the server answers `req` with.
pub fn response_for_request(req: &Request) -> (resp: Vec<u8>)
    ensures
        resp@ == spec_response_for_request(*req),
{
    let resp: Vec<u8> = match req {
        Request::Clear => Vec::new(),
        Request::BatteryDetail => vec![
            0xdd, 0x03, 0x00, 0x1d, 0x05, 0x38, 0x02, 0x83, 0x17, 0x5c, 0x27, 0xde, 0x00, 0x09,
            0x2b, 0x94, 0x00, 0x00, 0x00, 0x00, 0x00, 0x00, 0x20, 0x3b, 0x03, 0x04, 0x03, 0x0b,
            0x7f, 0x0b, 0x6c, 0x0b, 0x69, 0xfb, 0x07, 0x77,
        ],
        Request::BatteryVoltage => vec![
            0xdd, 0x04, 0x00, 0x08, 0x0d, 0xe2, 0x0d, 0xdc, 0x0d, 0xec, 0x0d, 0xed, 0xfc, 0x2d,
            0x77,
        ],
        Request::BatteryProtect => vec![
            0xdd, 0xaa, 0x00, 0x16, 0x00, 0x00, 0x00, 0x00, 0x00, 0x00, 0x00, 0x00, 0x00, 0x04,
            0x00, 0x00, 0x00, 0x00, 0x00, 0x00, 0x00, 0x00, 0x00, 0x00, 0x00, 0x00, 0xff, 0xe6,
            0x77,
        ],
    };
    proof {
        assert(resp@ =~= spec_response_for_request(*req));
    }
    resp
}

/// While disconnected, wait for a client: on connection the idle cycle
/// starts with a detail notification.
pub fn state_disconnected(connected: bool) -> (next: StateMachine)
    ensures
        next == if connected {
            StateMachine::Notify(Request::BatteryDetail)
        } else {
            StateMachine::Disconnected
        },
{
    if connected {
        StateMachine::Notify(Request::BatteryDetail)
    } else {
        StateMachine::Disconnected
    }
}

/// While idle, either a write arrived — it preempts the notification
/// cycle, clears the published value and starts accumulating the command —
/// or none did, and the notification for `req` is published and the cycle
/// advances.
pub fn state_notify(req: Request, received: Option<Vec<u8>>) -> (r: (StateMachine, Option<Vec<u8>>))
    requires
        req != Request::Clear,
    ensures
        match received {
            Some(chunk) => {
                &&& r.0 matches StateMachine::ReadRequest(b) && b@ == chunk@
                &&& r.1 matches Some(v) && v@.len() == 0
            },
            None => {
                &&& r.0 == StateMachine::Notify(spec_next_notification(req))
                &&& r.1 matches Some(v) && v@ == spec_response_for_request(req)
            },
        },
{
    match received {
        Some(chunk) => (StateMachine::ReadRequest(chunk), Some(Vec::new())),
        None => {
            let resp = response_for_request(&req);
            let next = match req {
                Request::BatteryDetail => Request::BatteryProtect,
                Request::BatteryProtect => Request::BatteryVoltage,
                Request::BatteryVoltage => Request::BatteryDetail,
                Request::Clear => Request::Clear,
            };
            (StateMachine::Notify(next), Some(resp))
        },
    }
}

/// While accumulating a command: once the buffer is request-length it is
/// recognized whole — a known command moves to answering it, anything else
/// is discarded and accumulation restarts.  An incomplete buffer absorbs
/// the received chunk, clearing the published value; `received` is only
/// consulted then, and the caller polls the transport only for an
/// incomplete buffer.
pub fn state_read_request(buff: Vec<u8>, received: Option<Vec<u8>>) -> (r: (
    StateMachine,
    Option<Vec<u8>>,
))
    ensures
        buff@.len() >= 7 ==> {
            &&& r.1 is None
            &&& match spec_parse_request(buff@) {
                Ok(req) => r.0 matches StateMachine::WriteResponse(resp) && resp@
                    == spec_response_for_request(req),
                Err(_) => r.0 matches StateMachine::ReadRequest(b) && b@.len() == 0,
            }
        },
        buff@.len() < 7 ==> match received {
            Some(chunk) => {
                &&& r.0 matches StateMachine::ReadRequest(b) && b@ == buff@ + chunk@
                &&& r.1 matches Some(v) && v@.len() == 0
            },
            None => {
                &&& r.0 matches StateMachine::ReadRequest(b) && b@ == buff@
                &&& r.1 is None
            },
        },
{
    let mut buff = buff;
    if Request::is_complete_request(buff.as_slice()) {
        match Request::parse_request(buff.as_slice()) {
            Ok(req) => (StateMachine::WriteResponse(response_for_request(&req)), None),
            Err(_) => (StateMachine::ReadRequest(Vec::new()), None),
        }
    } else {
        match received {
            Some(mut chunk) => {
                buff.append(&mut chunk);
                (StateMachine::ReadRequest(buff), Some(Vec::new()))
            },
            None => (StateMachine::ReadRequest(buff), None),
        }
    }
}

/// Publish the pending reply and return to accumulating the next command
/// with an empty buffer.
pub fn state_write_response(resp: Vec<u8>) -> (r: (StateMachine, Option<Vec<u8>>))
    ensures
        r.0 matches StateMachine::ReadRequest(b) && b@.len() == 0,
        r.1 matches Some(v) && v@ == resp@,
{
    (StateMachine::ReadRequest(Vec::new()), Some(resp))
}

} // verus!
