//! One data endpoint of the controller: its fixed description, its data
//! toggle, and the one transfer buffer it owns.
//!
//! The buffer changes hands through the slot.  An OUT endpoint whose slot
//! is `Empty` is armed: the controller may fill it.  Once `Full` it belongs
//! to the task side until the packet is taken, which arms it again.  An IN
//! endpoint whose slot is `Empty` is idle: the task side may fill it.  Once
//! `Full` it belongs to the controller until the host has taken the packet.

use crate::bytes::option_view;
use crate::setup::Direction;
use vstd::prelude::*;

verus! {

/// How an endpoint moves data.
#[derive(Clone, Copy, Debug, PartialEq, Eq, Structural)]
pub enum TransferType {
    Control,
    Bulk,
}

/// Who owns the transfer buffer of an endpoint.
#[derive(Clone, Copy, Debug, PartialEq, Eq, Structural)]
pub enum Slot {
    /// The endpoint is not enabled; it holds nothing.
    Disabled,
    /// Enabled and holding no packet.
    Empty,
    /// Holding one packet.
    Full,
}

/// The answer of the device to a packet from the host.
#[derive(Clone, Copy, Debug, PartialEq, Eq, Structural)]
pub enum Handshake {
    /// The packet was taken, or was a repetition and was dropped.
    Ack,
    /// The endpoint is busy; the host will try again.
    Nak,
    /// The endpoint is not enabled or the packet is too long.
    NoResponse,
}

/// An endpoint as a value: what it is and what it holds.
pub struct EndpointModel {
    pub number: u8,
    pub direction: Direction,
    pub transfer: TransferType,
    pub max_packet_size: u16,
    /// Where the buffer starts in packet memory.
    pub offset: u16,
    /// The toggle of the next packet: the one expected from the host on an
    /// OUT endpoint, the one sent on an IN endpoint.
    pub toggle: bool,
    pub slot: Slot,
    pub buffer: Seq<u8>,
}

impl EndpointModel {
    /// The buffer holds at most one packet, and nothing unless the slot is
    /// full.
    pub open spec fn wf(self) -> bool {
        &&& self.buffer.len() <= self.max_packet_size
        &&& self.slot != Slot::Full ==> self.buffer.len() == 0
    }

    /// A new endpoint: disabled, toggle cleared.
    pub open spec fn new(
        number: u8,
        direction: Direction,
        transfer: TransferType,
        max_packet_size: u16,
        offset: u16,
    ) -> EndpointModel {
        EndpointModel {
            number,
            direction,
            transfer,
            max_packet_size,
            offset,
            toggle: false,
            slot: Slot::Disabled,
            buffer: Seq::empty(),
        }
    }

    /// The endpoint after it was enabled: empty, toggle cleared.
    pub open spec fn enabled(self) -> EndpointModel {
        EndpointModel { toggle: false, slot: Slot::Empty, buffer: Seq::empty(), ..self }
    }

    /// The endpoint after it was disabled: nothing held, toggle cleared.
    pub open spec fn disabled(self) -> EndpointModel {
        EndpointModel { toggle: false, slot: Slot::Disabled, buffer: Seq::empty(), ..self }
    }

    /// Whether an OUT endpoint takes a packet from the host: it is armed,
    /// the toggle is the expected one, and the packet fits.
    pub open spec fn accepts(self, toggle: bool, data: Seq<u8>) -> bool {
        &&& self.slot == Slot::Empty
        &&& toggle == self.toggle
        &&& data.len() <= self.max_packet_size
    }

    /// An OUT endpoint after the host has sent it a packet.  A packet that
    /// is not accepted leaves no trace.
    pub open spec fn received(self, toggle: bool, data: Seq<u8>) -> EndpointModel {
        if self.accepts(toggle, data) {
            EndpointModel { toggle: !self.toggle, slot: Slot::Full, buffer: data, ..self }
        } else {
            self
        }
    }

    /// The answer of an OUT endpoint to a packet from the host.
    pub open spec fn handshake(self, data: Seq<u8>) -> Handshake {
        match self.slot {
            Slot::Disabled => Handshake::NoResponse,
            Slot::Full => Handshake::Nak,
            Slot::Empty => if data.len() <= self.max_packet_size {
                Handshake::Ack
            } else {
                Handshake::NoResponse
            },
        }
    }

    /// The packet that the task side gets from an OUT endpoint.
    pub open spec fn held(self) -> Option<Seq<u8>> {
        if self.slot == Slot::Full {
            Some(self.buffer)
        } else {
            None
        }
    }

    /// The endpoint after its packet, if any, was handed over.
    pub open spec fn released(self) -> EndpointModel {
        if self.slot == Slot::Full {
            EndpointModel { slot: Slot::Empty, buffer: Seq::empty(), ..self }
        } else {
            self
        }
    }

    /// Whether an IN endpoint takes a packet from the task side: it is
    /// idle and the packet fits.
    pub open spec fn takes(self, data: Seq<u8>) -> bool {
        self.slot == Slot::Empty && data.len() <= self.max_packet_size
    }

    /// An IN endpoint after the task side has offered it a packet.
    pub open spec fn submitted(self, data: Seq<u8>) -> EndpointModel {
        if self.takes(data) {
            EndpointModel { slot: Slot::Full, buffer: data, ..self }
        } else {
            self
        }
    }

    /// An IN endpoint after the host has asked it for a packet: a packet in
    /// flight is gone and the toggle has advanced.
    pub open spec fn transmitted(self) -> EndpointModel {
        if self.slot == Slot::Full {
            EndpointModel { toggle: !self.toggle, slot: Slot::Empty, buffer: Seq::empty(), ..self }
        } else {
            self
        }
    }
}

/// An endpoint with its transfer buffer.
pub struct Endpoint {
    number: u8,
    direction: Direction,
    transfer: TransferType,
    max_packet_size: u16,
    offset: u16,
    toggle: bool,
    slot: Slot,
    buffer: Vec<u8>,
}

impl View for Endpoint {
    type V = EndpointModel;

    closed spec fn view(&self) -> EndpointModel {
        EndpointModel {
            number: self.number,
            direction: self.direction,
            transfer: self.transfer,
            max_packet_size: self.max_packet_size,
            offset: self.offset,
            toggle: self.toggle,
            slot: self.slot,
            buffer: self.buffer@,
        }
    }
}

impl Endpoint {
    pub open spec fn wf(&self) -> bool {
        self@.wf()
    }

    pub fn new(
        number: u8,
        direction: Direction,
        transfer: TransferType,
        max_packet_size: u16,
        offset: u16,
    ) -> (e: Endpoint)
        ensures
            e.wf(),
            e@ == EndpointModel::new(number, direction, transfer, max_packet_size, offset),
    {
        Endpoint {
            number,
            direction,
            transfer,
            max_packet_size,
            offset,
            toggle: false,
            slot: Slot::Disabled,
            buffer: Vec::new(),
        }
    }

    pub fn max_packet_size(&self) -> (size: u16)
        ensures
            size == self@.max_packet_size,
    {
        self.max_packet_size
    }

    pub fn offset(&self) -> (offset: u16)
        ensures
            offset == self@.offset,
    {
        self.offset
    }

    pub fn toggle(&self) -> (toggle: bool)
        ensures
            toggle == self@.toggle,
    {
        self.toggle
    }

    pub fn slot(&self) -> (slot: Slot)
        ensures
            slot == self@.slot,
    {
        self.slot
    }

    /// Enables the endpoint with an empty buffer and a cleared toggle.
    pub fn enable(&mut self)
        ensures
            final(self).wf(),
            final(self)@ == old(self)@.enabled(),
    {
        self.toggle = false;
        self.slot = Slot::Empty;
        self.buffer = Vec::new();
    }

    /// Disables the endpoint and drops what it holds.
    pub fn disable(&mut self)
        ensures
            final(self).wf(),
            final(self)@ == old(self)@.disabled(),
    {
        self.toggle = false;
        self.slot = Slot::Disabled;
        self.buffer = Vec::new();
    }

    /// Controller side of an OUT endpoint: a packet arrives from the host
    /// with the given toggle.  It is stored only if the endpoint is armed,
    /// the toggle is the expected one and the packet fits; else the
    /// endpoint is left as it was.
    pub fn receive(&mut self, toggle: bool, data: &[u8]) -> (answer: Handshake)
        requires
            old(self).wf(),
        ensures
            final(self).wf(),
            final(self)@ == old(self)@.received(toggle, data@),
            answer == old(self)@.handshake(data@),
    {
        match self.slot {
            Slot::Disabled => Handshake::NoResponse,
            Slot::Full => Handshake::Nak,
            Slot::Empty => {
                if data.len() > self.max_packet_size as usize {
                    Handshake::NoResponse
                } else {
                    if toggle == self.toggle {
                        self.buffer = vstd::slice::slice_to_vec(data);
                        self.slot = Slot::Full;
                        self.toggle = !self.toggle;
                    }
                    Handshake::Ack
                }
            },
        }
    }

    /// Task side of an OUT endpoint: takes the packet that was received, if
    /// there is one, and arms the endpoint again.
    pub fn take(&mut self) -> (packet: Option<Vec<u8>>)
        requires
            old(self).wf(),
        ensures
            final(self).wf(),
            final(self)@ == old(self)@.released(),
            option_view(packet) == old(self)@.held(),
    {
        if self.slot == Slot::Full {
            let mut packet: Vec<u8> = Vec::new();
            std::mem::swap(&mut packet, &mut self.buffer);
            self.slot = Slot::Empty;
            Some(packet)
        } else {
            None
        }
    }

    /// Task side of an IN endpoint: offers a packet for sending.  It is
    /// taken only if the endpoint is idle and the packet fits.
    pub fn submit(&mut self, data: &[u8]) -> (taken: bool)
        requires
            old(self).wf(),
        ensures
            final(self).wf(),
            final(self)@ == old(self)@.submitted(data@),
            taken == old(self)@.takes(data@),
    {
        if self.slot == Slot::Empty && data.len() <= self.max_packet_size as usize {
            self.buffer = vstd::slice::slice_to_vec(data);
            self.slot = Slot::Full;
            true
        } else {
            false
        }
    }

    /// Controller side of an IN endpoint: the host asks for a packet.  The
    /// packet in flight, if there is one, goes out and the toggle advances.
    pub fn transmit(&mut self) -> (packet: Option<Vec<u8>>)
        requires
            old(self).wf(),
        ensures
            final(self).wf(),
            final(self)@ == old(self)@.transmitted(),
            option_view(packet) == old(self)@.held(),
    {
        if self.slot == Slot::Full {
            let mut packet: Vec<u8> = Vec::new();
            std::mem::swap(&mut packet, &mut self.buffer);
            self.slot = Slot::Empty;
            self.toggle = !self.toggle;
            Some(packet)
        } else {
            None
        }
    }
}

} // verus!
