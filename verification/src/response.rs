//! The client-side view of an inbound frame: the same codec as
//! [`Message`](crate::message::Message), under the names the
//! request/response exchange uses.

use crate::detail::BatteryDetail;
use crate::message::message_matches;
use crate::message::message_ok;
use crate::message::spec_is_complete;
use crate::message::spec_parse_failure;
use crate::message::Message;
use crate::protect::BatteryProtect;
use crate::voltage::BatteryVoltage;
use crate::ParseError;
use vstd::prelude::*;

verus! {

/// A decoded response to one of the telemetry commands.
#[derive(Debug, PartialEq, Eq)]
pub enum Response {
    BatteryDetail(BatteryDetail),
    BatteryProtect(BatteryProtect),
    BatteryVoltage(BatteryVoltage),
}

/// Whether `resp` is the response the frame in `msg` encodes: the same
/// correspondence the message codec defines, variant for variant.
pub open spec fn response_matches(msg: Seq<u8>, resp: Response) -> bool {
    match resp {
        Response::BatteryDetail(d) => message_matches(msg, Message::Detail(d)),
        Response::BatteryProtect(p) => message_matches(msg, Message::Protect(p)),
        Response::BatteryVoltage(bv) => message_matches(msg, Message::Voltage(bv)),
    }
}

impl Response {
    /// Whether the buffer already holds a whole response frame.
    pub fn is_complete_response(response: &[u8]) -> (r: bool)
        ensures
            r == spec_is_complete(response@),
    {
        Message::is_complete_message(response)
    }

    /// Decode one response frame.
    pub fn parse_response(response: &[u8]) -> (r: Result<Response, ParseError>)
        ensures
            match r {
                Ok(resp) => message_ok(response@) && response_matches(response@, resp),
                Err(e) => !message_ok(response@) && e == spec_parse_failure(response@),
            },
    {
        match Message::parse_message(response) {
            Ok(Message::Detail(d)) => Ok(Response::BatteryDetail(d)),
            Ok(Message::Protect(p)) => Ok(Response::BatteryProtect(p)),
            Ok(Message::Voltage(bv)) => Ok(Response::BatteryVoltage(bv)),
            Err(e) => Err(e),
        }
    }
}

} // verus!
