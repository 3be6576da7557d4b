//! The four fixed command frames a client writes to the device.  Requests
//! carry no payload, so the mock server recognizes them by exact equality
//! against the known 7-byte literals rather than field by field.

use crate::util::bytes_eq;
use crate::ParseError;
use vstd::prelude::*;

verus! {

/// One of the four known commands.
#[derive(Clone, Copy, Debug, PartialEq, Eq, Structural)]
pub enum Request {
    /// Flush the exchange; the device sends no reply.
    Clear,
    /// Ask for the detail record.
    BatteryDetail,
    /// Ask for the protection-status record.
    BatteryProtect,
    /// Ask for the cell-voltage record.
    BatteryVoltage,
}

/// The 7-byte wire form of each command.
pub open spec fn spec_request_bytes(req: Request) -> Seq<u8> {
    match req {
        Request::Clear => seq![0x00u8, 0x00, 0x00, 0x00, 0x00, 0x00, 0x00],
        Request::BatteryDetail => seq![0xddu8, 0xa5, 0x03, 0x00, 0xff, 0xfd, 0x77],
        Request::BatteryProtect => seq![0xddu8, 0xa5, 0xaa, 0x00, 0xff, 0x56, 0x77],
        Request::BatteryVoltage => seq![0xddu8, 0xa5, 0x04, 0x00, 0xff, 0xfc, 0x77],
    }
}

/// The command a buffer holds, or the error recognizing it: too short a
/// buffer is not enough data, and anything else that is not exactly one of
/// the four literals is invalid.
pub open spec fn spec_parse_request(req: Seq<u8>) -> Result<Request, ParseError> {
    if req.len() < 7 {
        Err(ParseError::NotEnoughData)
    } else if req == spec_request_bytes(Request::Clear) {
        Ok(Request::Clear)
    } else if req == spec_request_bytes(Request::BatteryDetail) {
        Ok(Request::BatteryDetail)
    } else if req == spec_request_bytes(Request::BatteryProtect) {
        Ok(Request::BatteryProtect)
    } else if req == spec_request_bytes(Request::BatteryVoltage) {
        Ok(Request::BatteryVoltage)
    } else {
        Err(ParseError::InvalidData)
    }
}

impl Request {
    /// Whether enough bytes arrived to hold a command frame.
    pub fn is_complete_request(req: &[u8]) -> (r: bool)
        ensures
            r == (req@.len() >= 7),
    {
        req.len() >= 7
    }

    /// Recognize a command buffer by exact comparison against the four
    /// known literals.
    pub fn parse_request(req: &[u8]) -> (r: Result<Request, ParseError>)
        ensures
            r == spec_parse_request(req@),
    {
        if req.len() < 7 {
            return Err(ParseError::NotEnoughData);
        }

        if bytes_eq(req, Request::Clear.bytes().as_slice()) {
            Ok(Request::Clear)
        } else if bytes_eq(req, Request::BatteryDetail.bytes().as_slice()) {
            Ok(Request::BatteryDetail)
        } else if bytes_eq(req, Request::BatteryProtect.bytes().as_slice()) {
            Ok(Request::BatteryProtect)
        } else if bytes_eq(req, Request::BatteryVoltage.bytes().as_slice()) {
            Ok(Request::BatteryVoltage)
        } else {
            Err(ParseError::InvalidData)
        }
    }

    /// The wire form of this command.
    pub fn bytes(&self) -> (r: Vec<u8>)
        ensures
            r@ == spec_request_bytes(*self),
    {
        let mut r: Vec<u8> = Vec::new();
        match self {
            Request::Clear => {
                r.push(0x00);
                r.push(0x00);
                r.push(0x00);
                r.push(0x00);
                r.push(0x00);
                r.push(0x00);
                r.push(0x00);
            },
            Request::BatteryDetail => {
                r.push(0xdd);
                r.push(0xa5);
                r.push(0x03);
                r.push(0x00);
                r.push(0xff);
                r.push(0xfd);
                r.push(0x77);
            },
            Request::BatteryProtect => {
                r.push(0xdd);
                r.push(0xa5);
                r.push(0xaa);
                r.push(0x00);
                r.push(0xff);
                r.push(0x56);
                r.push(0x77);
            },
            Request::BatteryVoltage => {
                r.push(0xdd);
                r.push(0xa5);
                r.push(0x04);
                r.push(0x00);
                r.push(0xff);
                r.push(0xfc);
                r.push(0x77);
            },
        }
        proof {
            assert(r@ =~= spec_request_bytes(*self));
        }
        r
    }
}

} // verus!
