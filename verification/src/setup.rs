//! SETUP packets and the control requests this device answers.
//!
//! A SETUP packet is eight bytes: `bmRequestType`, `bRequest`, and the
//! little-endian 16-bit fields `wValue`, `wIndex` and `wLength`.

use vstd::prelude::*;

verus! {

/// Standard request code of SET_ADDRESS.
pub const SET_ADDRESS: u8 = 5;

/// Standard request code of GET_DESCRIPTOR.
pub const GET_DESCRIPTOR: u8 = 6;

/// Standard request code of SET_CONFIGURATION.
pub const SET_CONFIGURATION: u8 = 9;

/// Class request code of SET_LINE_CODING.
pub const SET_LINE_CODING: u8 = 0x20;

/// Class request code of GET_LINE_CODING.
pub const GET_LINE_CODING: u8 = 0x21;

/// Class request code of SET_CONTROL_LINE_STATE.
pub const SET_CONTROL_LINE_STATE: u8 = 0x22;

/// Number of the communications interface, the target of class requests.
pub const COMM_INTERFACE: u8 = 0;

/// Number of the data interface.
pub const DATA_INTERFACE: u8 = 1;

/// The value of the one configuration this device has.
pub const CONFIGURATION_VALUE: u8 = 1;

/// Direction of a transfer, seen from the host.
#[derive(Clone, Copy, Debug, PartialEq, Eq, Structural)]
pub enum Direction {
    /// Host to device.
    Out,
    /// Device to host.
    In,
}

/// Bits 5 and 6 of `bmRequestType`.
#[derive(Clone, Copy, Debug, PartialEq, Eq, Structural)]
pub enum RequestType {
    Standard,
    Class,
    Vendor,
    Reserved,
}

/// Bits 0 to 4 of `bmRequestType`.
#[derive(Clone, Copy, Debug, PartialEq, Eq, Structural)]
pub enum Recipient {
    Device,
    Interface,
    Endpoint,
    Other,
    /// Any code above 3.
    Reserved,
}

/// The fields of a SETUP packet.
#[derive(Clone, Copy, Debug, PartialEq, Eq, Structural)]
pub struct SetupPacket {
    pub direction: Direction,
    pub request_type: RequestType,
    pub recipient: Recipient,
    pub request: u8,
    pub value: u16,
    pub index: u16,
    pub length: u16,
}

/// The 16-bit number whose little-endian bytes are `lo, hi`.
pub open spec fn le16(lo: u8, hi: u8) -> u16 {
    (lo + 256 * hi) as u16
}

pub open spec fn spec_direction(request_type: u8) -> Direction {
    if request_type >= 128 {
        Direction::In
    } else {
        Direction::Out
    }
}

pub open spec fn spec_request_type(request_type: u8) -> RequestType {
    let code = (request_type / 32) % 4;
    if code == 0 {
        RequestType::Standard
    } else if code == 1 {
        RequestType::Class
    } else if code == 2 {
        RequestType::Vendor
    } else {
        RequestType::Reserved
    }
}

pub open spec fn spec_recipient(request_type: u8) -> Recipient {
    let code = request_type % 32;
    if code == 0 {
        Recipient::Device
    } else if code == 1 {
        Recipient::Interface
    } else if code == 2 {
        Recipient::Endpoint
    } else if code == 3 {
        Recipient::Other
    } else {
        Recipient::Reserved
    }
}

impl SetupPacket {
    /// The fields that eight raw bytes carry.
    pub open spec fn spec_parse(raw: Seq<u8>) -> SetupPacket
        recommends
            raw.len() == 8,
    {
        SetupPacket {
            direction: spec_direction(raw[0]),
            request_type: spec_request_type(raw[0]),
            recipient: spec_recipient(raw[0]),
            request: raw[1],
            value: le16(raw[2], raw[3]),
            index: le16(raw[4], raw[5]),
            length: le16(raw[6], raw[7]),
        }
    }

    /// Splits the eight bytes of a SETUP packet into its fields.
    pub fn parse(raw: &[u8; 8]) -> (p: SetupPacket)
        ensures
            p == Self::spec_parse(raw@),
    {
        let rt: u8 = raw[0];
        let type_code: u8 = (rt / 32) % 4;
        let recipient_code: u8 = rt % 32;
        SetupPacket {
            direction: if rt >= 128 {
                Direction::In
            } else {
                Direction::Out
            },
            request_type: if type_code == 0 {
                RequestType::Standard
            } else if type_code == 1 {
                RequestType::Class
            } else if type_code == 2 {
                RequestType::Vendor
            } else {
                RequestType::Reserved
            },
            recipient: if recipient_code == 0 {
                Recipient::Device
            } else if recipient_code == 1 {
                Recipient::Interface
            } else if recipient_code == 2 {
                Recipient::Endpoint
            } else if recipient_code == 3 {
                Recipient::Other
            } else {
                Recipient::Reserved
            },
            request: raw[1],
            value: raw[2] as u16 + 256 * (raw[3] as u16),
            index: raw[4] as u16 + 256 * (raw[5] as u16),
            length: raw[6] as u16 + 256 * (raw[7] as u16),
        }
    }
}

/// What a SETUP packet asks of this device.
#[derive(Clone, Copy, Debug, PartialEq, Eq, Structural)]
pub enum ControlRequest {
    /// Standard GET_DESCRIPTOR: the kind and index from `wValue`, and the
    /// most bytes the host will take.
    GetDescriptor { kind: u8, index: u8, length: u16 },
    /// Standard SET_ADDRESS with an address from 1 to 127.
    SetAddress { address: u8 },
    /// Standard SET_CONFIGURATION: `true` selects the one configuration,
    /// `false` deselects it.
    SetConfiguration { configured: bool },
    /// Class SET_LINE_CODING; the seven payload bytes follow in the data
    /// stage.
    SetLineCoding,
    /// Class GET_LINE_CODING asking for exactly seven bytes.
    GetLineCoding,
    /// Class SET_CONTROL_LINE_STATE with its `wValue`.
    SetControlLineState { value: u16 },
    /// Anything else.  It is answered with a STALL.
    Unsupported,
}

impl SetupPacket {
    pub open spec fn is_standard_device(self, direction: Direction, request: u8) -> bool {
        &&& self.request_type == RequestType::Standard
        &&& self.recipient == Recipient::Device
        &&& self.direction == direction
        &&& self.request == request
    }

    pub open spec fn is_class_interface(self, direction: Direction, request: u8) -> bool {
        &&& self.request_type == RequestType::Class
        &&& self.recipient == Recipient::Interface
        &&& self.index == COMM_INTERFACE
        &&& self.direction == direction
        &&& self.request == request
    }

    /// The request that the packet stands for.
    pub open spec fn spec_classify(self) -> ControlRequest {
        if self.is_standard_device(Direction::In, GET_DESCRIPTOR) {
            ControlRequest::GetDescriptor {
                kind: (self.value / 256) as u8,
                index: (self.value % 256) as u8,
                length: self.length,
            }
        } else if self.is_standard_device(Direction::Out, SET_ADDRESS) && 1 <= self.value <= 127
            && self.length == 0 {
            ControlRequest::SetAddress { address: self.value as u8 }
        } else if self.is_standard_device(Direction::Out, SET_CONFIGURATION) && self.value
            <= CONFIGURATION_VALUE && self.length == 0 {
            ControlRequest::SetConfiguration { configured: self.value == CONFIGURATION_VALUE }
        } else if self.is_class_interface(Direction::Out, SET_LINE_CODING) && self.length == 7 {
            ControlRequest::SetLineCoding
        } else if self.is_class_interface(Direction::In, GET_LINE_CODING) && self.length == 7 {
            ControlRequest::GetLineCoding
        } else if self.is_class_interface(Direction::Out, SET_CONTROL_LINE_STATE) && self.length
            == 0 {
            ControlRequest::SetControlLineState { value: self.value }
        } else {
            ControlRequest::Unsupported
        }
    }

    fn standard_device(&self, direction: Direction, request: u8) -> (b: bool)
        ensures
            b == self.is_standard_device(direction, request),
    {
        self.request_type == RequestType::Standard && self.recipient == Recipient::Device
            && self.direction == direction && self.request == request
    }

    fn class_interface(&self, direction: Direction, request: u8) -> (b: bool)
        ensures
            b == self.is_class_interface(direction, request),
    {
        self.request_type == RequestType::Class && self.recipient == Recipient::Interface
            && self.index == COMM_INTERFACE as u16 && self.direction == direction && self.request
            == request
    }

    /// Decides which of the supported requests the packet is, if any.
    pub fn classify(&self) -> (r: ControlRequest)
        ensures
            r == self.spec_classify(),
    {
        if self.standard_device(Direction::In, GET_DESCRIPTOR) {
            ControlRequest::GetDescriptor {
                kind: (self.value / 256) as u8,
                index: (self.value % 256) as u8,
                length: self.length,
            }
        } else if self.standard_device(Direction::Out, SET_ADDRESS) && 1 <= self.value
            && self.value <= 127 && self.length == 0 {
            ControlRequest::SetAddress { address: self.value as u8 }
        } else if self.standard_device(Direction::Out, SET_CONFIGURATION) && self.value
            <= CONFIGURATION_VALUE as u16 && self.length == 0 {
            ControlRequest::SetConfiguration { configured: self.value == CONFIGURATION_VALUE as u16 }
        } else if self.class_interface(Direction::Out, SET_LINE_CODING) && self.length == 7 {
            ControlRequest::SetLineCoding
        } else if self.class_interface(Direction::In, GET_LINE_CODING) && self.length == 7 {
            ControlRequest::GetLineCoding
        } else if self.class_interface(Direction::Out, SET_CONTROL_LINE_STATE) && self.length
            == 0 {
            ControlRequest::SetControlLineState { value: self.value }
        } else {
            ControlRequest::Unsupported
        }
    }
}

} // verus!
