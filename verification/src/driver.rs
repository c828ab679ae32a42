//! The peripheral driver: the state of the device on the bus, its
//! endpoints, and the hand-over between the interrupt handler and the task
//! side.
//!
//! Functions whose names begin with `irq_` stand for what the controller
//! and its interrupt handler do when the host acts.  They store what
//! arrived, if the owning endpoint is theirs to write, and raise a flag;
//! they never call upward.  All other functions belong to the task side.

use crate::bytes::option_view;
use crate::descriptor::{valid_packet_size, DeviceConfig};
use crate::endpoint::{Endpoint, EndpointModel, Handshake, Slot, TransferType};
use crate::error::UsbError;
use crate::events::{Event, EventFlags, Flag};
use crate::setup::Direction;
use vstd::prelude::*;

verus! {

/// Number of the control endpoint.
pub const CONTROL_ENDPOINT: u8 = 0;

/// Number of the two bulk endpoints.
pub const BULK_ENDPOINT: u8 = 1;

/// Most bytes the data stage of a control write may carry.
pub const CONTROL_BUFFER_SIZE: usize = 64;

/// Size of the packet memory of the controller.
pub const PACKET_MEMORY_SIZE: u16 = 512;

/// Size of the buffer descriptor table at the start of packet memory.
pub const BUFFER_TABLE_SIZE: u16 = 64;

/// Highest address a host can assign.
pub const MAX_ADDRESS: u8 = 127;

/// Where the device stands in enumeration.
#[derive(Clone, Copy, Debug, PartialEq, Eq, Structural)]
pub enum DeviceState {
    /// Attached or reset, answering at address 0.
    Default,
    /// The host has assigned an address.
    Addressed,
    /// The host has selected the configuration; the bulk endpoints work.
    Configured,
}

/// One step of bringing the controller up.
#[derive(Clone, Copy, Debug, PartialEq, Eq, Structural)]
pub enum InitStep {
    EnableClocks,
    ResetController,
    ClearBufferTable,
    EnterDefaultState,
    /// Makes the device visible to the host.
    AssertPullUp,
}

/// The steps of bring-up in the order in which they are performed.
pub open spec fn init_sequence() -> Seq<InitStep> {
    seq![
        InitStep::EnableClocks,
        InitStep::ResetController,
        InitStep::ClearBufferTable,
        InitStep::EnterDefaultState,
        InitStep::AssertPullUp,
    ]
}

/// Where the control pipe stands in a control transfer.
#[derive(Clone, Copy, Debug, PartialEq, Eq, Structural)]
pub enum ControlPhase {
    /// No answer is ready and no data is awaited.
    Idle,
    /// The data stage of a control write is awaited.
    AwaitingData,
    /// The data stage has arrived and waits to be taken.
    DataReceived,
    /// Data is ready for the host to fetch.
    Replying,
    /// The request was carried out; the host has yet to see that.
    Accepted,
    /// The request was refused; the pipe stalls until the next SETUP.
    Stalled,
}

/// What the host sees when it asks for the answer to a control request.
#[derive(Clone, Copy, Debug, PartialEq, Eq, Structural)]
pub enum ControlAnswer {
    /// Nothing yet.
    Pending,
    /// Data, which comes with the answer.
    Data,
    /// Success without data.
    Accepted,
    /// A STALL.
    Stalled,
}

/// Offset of the control buffer in packet memory.
pub open spec fn control_offset() -> u16 {
    BUFFER_TABLE_SIZE
}

/// Offset of the bulk-OUT buffer in packet memory.
pub open spec fn bulk_out_offset(max_packet_size_0: u8) -> u16 {
    (BUFFER_TABLE_SIZE + max_packet_size_0) as u16
}

/// Offset of the bulk-IN buffer in packet memory.
pub open spec fn bulk_in_offset(max_packet_size_0: u8, bulk_packet_size: u16) -> u16 {
    (BUFFER_TABLE_SIZE + max_packet_size_0 + bulk_packet_size) as u16
}

/// The driver as a value.
pub struct DriverModel {
    /// The pull-up is asserted: the host can see the device.
    pub attached: bool,
    pub state: DeviceState,
    pub suspended: bool,
    pub address: u8,
    pub flags: EventFlags,
    /// The eight bytes of the SETUP packet that arrived last.
    pub setup: Seq<u8>,
    pub max_packet_size_0: u8,
    pub control_phase: ControlPhase,
    /// The data stage of the control transfer in progress.
    pub control_data: Seq<u8>,
    pub bulk_out: EndpointModel,
    pub bulk_in: EndpointModel,
}

impl DriverModel {
    pub open spec fn wf(self) -> bool {
        &&& self.setup.len() == 8
        &&& valid_packet_size(self.max_packet_size_0 as int)
        &&& self.address <= MAX_ADDRESS
        &&& self.state == DeviceState::Default ==> self.address == 0
        &&& !self.attached ==> self.state == DeviceState::Default && self.flags
            == EventFlags::none() && self.control_phase == ControlPhase::Idle && !self.suspended
        &&& self.control_phase != ControlPhase::DataReceived && self.control_phase
            != ControlPhase::Replying ==> self.control_data.len() == 0
        &&& self.control_phase == ControlPhase::DataReceived ==> self.control_data.len()
            <= CONTROL_BUFFER_SIZE
        &&& self.bulk_out.wf()
        &&& self.bulk_in.wf()
        &&& self.bulk_out.number == BULK_ENDPOINT
        &&& self.bulk_in.number == BULK_ENDPOINT
        &&& self.bulk_out.direction == Direction::Out
        &&& self.bulk_in.direction == Direction::In
        &&& self.bulk_out.transfer == TransferType::Bulk
        &&& self.bulk_in.transfer == TransferType::Bulk
        &&& valid_packet_size(self.bulk_out.max_packet_size as int)
        &&& self.bulk_in.max_packet_size == self.bulk_out.max_packet_size
        &&& self.bulk_out.offset == bulk_out_offset(self.max_packet_size_0)
        &&& self.bulk_in.offset == bulk_in_offset(
            self.max_packet_size_0,
            self.bulk_out.max_packet_size,
        )
        &&& self.state == DeviceState::Configured <==> self.bulk_out.slot != Slot::Disabled
        &&& self.state == DeviceState::Configured <==> self.bulk_in.slot != Slot::Disabled
    }

    /// The driver before bring-up: invisible to the host, nothing enabled.
    pub open spec fn powered_on(max_packet_size_0: u8, bulk_packet_size: u16) -> DriverModel {
        DriverModel {
            attached: false,
            state: DeviceState::Default,
            suspended: false,
            address: 0,
            flags: EventFlags::none(),
            setup: Seq::new(8, |i: int| 0u8),
            max_packet_size_0,
            control_phase: ControlPhase::Idle,
            control_data: Seq::empty(),
            bulk_out: EndpointModel::new(
                BULK_ENDPOINT,
                Direction::Out,
                TransferType::Bulk,
                bulk_packet_size,
                bulk_out_offset(max_packet_size_0),
            ),
            bulk_in: EndpointModel::new(
                BULK_ENDPOINT,
                Direction::In,
                TransferType::Bulk,
                bulk_packet_size,
                bulk_in_offset(max_packet_size_0, bulk_packet_size),
            ),
        }
    }

    /// The driver after a bus reset was handled: back in the default
    /// state at address 0, no flag pending, the control pipe idle, both
    /// bulk endpoints disabled with cleared toggles and empty buffers.
    pub open spec fn after_reset(self) -> DriverModel {
        DriverModel {
            state: DeviceState::Default,
            suspended: false,
            address: 0,
            flags: EventFlags::none(),
            control_phase: ControlPhase::Idle,
            control_data: Seq::empty(),
            bulk_out: self.bulk_out.disabled(),
            bulk_in: self.bulk_in.disabled(),
            ..self
        }
    }

    /// The driver after bring-up: reset, and visible to the host.
    pub open spec fn initialized(self) -> DriverModel {
        DriverModel { attached: true, ..self.after_reset() }
    }

    /// Whether the controller takes anything from the bus: the device is
    /// attached and no reset waits to be handled.
    pub open spec fn listening(self) -> bool {
        self.attached && !self.flags.reset
    }

    /// Whether an address can be assigned: it is from 1 to 127.
    pub open spec fn address_assignable(self, address: u8) -> bool {
        self.attached && 1 <= address <= MAX_ADDRESS
    }

    /// The driver after the host has assigned `address`.
    pub open spec fn with_address(self, address: u8) -> DriverModel {
        if self.address_assignable(address) {
            DriverModel {
                address,
                state: if self.state == DeviceState::Default {
                    DeviceState::Addressed
                } else {
                    self.state
                },
                ..self
            }
        } else {
            self
        }
    }

    /// The driver after the configuration was selected.  Only the step
    /// from addressed to configured enables the bulk endpoints, and arms
    /// the bulk-OUT endpoint.
    pub open spec fn configured(self) -> DriverModel {
        if self.state == DeviceState::Addressed {
            DriverModel {
                state: DeviceState::Configured,
                bulk_out: self.bulk_out.enabled(),
                bulk_in: self.bulk_in.enabled(),
                ..self
            }
        } else {
            self
        }
    }

    /// The driver after the configuration was deselected.
    pub open spec fn deconfigured(self) -> DriverModel {
        if self.state == DeviceState::Configured {
            DriverModel {
                state: DeviceState::Addressed,
                bulk_out: self.bulk_out.disabled(),
                bulk_in: self.bulk_in.disabled(),
                ..self
            }
        } else {
            self
        }
    }

    /// The flag that the next poll reports.
    pub open spec fn next_flag(self) -> Option<Flag> {
        self.flags.most_urgent()
    }

    /// The event that the next poll returns.
    pub open spec fn next_event(self) -> Option<EventModel> {
        match self.next_flag() {
            None => None,
            Some(flag) => Some(
                match flag {
                    Flag::Reset => EventModel::Reset,
                    Flag::Setup => EventModel::Setup(self.setup),
                    Flag::ControlOut => EventModel::EndpointComplete(
                        CONTROL_ENDPOINT,
                        Direction::Out,
                    ),
                    Flag::ControlIn => EventModel::EndpointComplete(CONTROL_ENDPOINT, Direction::In),
                    Flag::BulkOut => EventModel::EndpointComplete(BULK_ENDPOINT, Direction::Out),
                    Flag::BulkIn => EventModel::EndpointComplete(BULK_ENDPOINT, Direction::In),
                    Flag::Suspend => EventModel::Suspend,
                    Flag::Wake => EventModel::Wake,
                },
            ),
        }
    }

    /// The driver after one poll: the reported flag is cleared; a reset is
    /// carried out, and a power event is recorded.
    pub open spec fn polled(self) -> DriverModel {
        match self.next_flag() {
            None => self,
            Some(Flag::Reset) => self.after_reset(),
            Some(Flag::Suspend) => DriverModel {
                suspended: true,
                flags: self.flags.after_take(),
                ..self
            },
            Some(Flag::Wake) => DriverModel {
                suspended: false,
                flags: self.flags.after_take(),
                ..self
            },
            Some(_) => DriverModel { flags: self.flags.after_take(), ..self },
        }
    }

    /// What reading from data endpoint `endpoint` returns.
    pub open spec fn read_result(self, endpoint: u8) -> Result<Option<Seq<u8>>, UsbError> {
        if endpoint == BULK_ENDPOINT && self.state == DeviceState::Configured {
            Ok(self.bulk_out.held())
        } else {
            Err(UsbError::EndpointDisabled)
        }
    }

    /// The driver after a read from data endpoint `endpoint`: a packet
    /// that was handed over is gone and the endpoint is armed again.
    pub open spec fn after_read(self, endpoint: u8) -> DriverModel {
        if endpoint == BULK_ENDPOINT && self.state == DeviceState::Configured {
            DriverModel { bulk_out: self.bulk_out.released(), ..self }
        } else {
            self
        }
    }

    /// What writing `data` to data endpoint `endpoint` returns: whether
    /// the packet was taken for sending, or why it cannot be sent.
    pub open spec fn write_result(self, endpoint: u8, data: Seq<u8>) -> Result<bool, UsbError> {
        if data.len() > self.bulk_in.max_packet_size {
            Err(UsbError::BufferOverflow)
        } else if endpoint == BULK_ENDPOINT && self.state == DeviceState::Configured {
            Ok(self.bulk_in.takes(data))
        } else {
            Err(UsbError::EndpointDisabled)
        }
    }

    /// The driver after a write of `data` to data endpoint `endpoint`.
    pub open spec fn after_write(self, endpoint: u8, data: Seq<u8>) -> DriverModel {
        if self.write_result(endpoint, data) == Ok::<bool, UsbError>(true) {
            DriverModel { bulk_in: self.bulk_in.submitted(data), ..self }
        } else {
            self
        }
    }

    /// Whether the control pipe takes an answer from the task side: the
    /// device is attached and no newer SETUP packet waits.
    pub open spec fn control_open(self) -> bool {
        self.attached && !self.flags.setup && !self.flags.reset
    }

    /// The driver after the task side has set the control pipe to `phase`
    /// with `data`.
    pub open spec fn with_control(self, phase: ControlPhase, data: Seq<u8>) -> DriverModel {
        if self.control_open() {
            DriverModel { control_phase: phase, control_data: data, ..self }
        } else {
            self
        }
    }

    /// The data stage that the task side gets from the control pipe.
    pub open spec fn control_held(self) -> Option<Seq<u8>> {
        if self.control_phase == ControlPhase::DataReceived {
            Some(self.control_data)
        } else {
            None
        }
    }

    /// The driver after the data stage, if any, was handed over.
    pub open spec fn control_released(self) -> DriverModel {
        if self.control_phase == ControlPhase::DataReceived {
            DriverModel {
                control_phase: ControlPhase::Idle,
                control_data: Seq::empty(),
                ..self
            }
        } else {
            self
        }
    }

    /// The driver after the host has reset the bus: the reset is flagged
    /// and nothing else changes.
    pub open spec fn on_reset(self) -> DriverModel {
        if self.attached {
            DriverModel { flags: self.flags.with(Flag::Reset, true), ..self }
        } else {
            self
        }
    }

    /// The driver after a SETUP packet has arrived: it is stored and
    /// flagged, and the control pipe starts afresh.
    pub open spec fn on_setup(self, raw: Seq<u8>) -> DriverModel {
        if self.listening() {
            DriverModel {
                setup: raw,
                flags: self.flags.with(Flag::Setup, true),
                control_phase: ControlPhase::Idle,
                control_data: Seq::empty(),
                ..self
            }
        } else {
            self
        }
    }

    /// Whether the control pipe takes `data` as the data stage.
    pub open spec fn control_accepts(self, data: Seq<u8>) -> bool {
        &&& self.listening()
        &&& self.control_phase == ControlPhase::AwaitingData
        &&& data.len() <= CONTROL_BUFFER_SIZE
    }

    /// The driver after the host has sent `data` as the data stage of a
    /// control write.
    pub open spec fn on_control_out(self, data: Seq<u8>) -> DriverModel {
        if self.control_accepts(data) {
            DriverModel {
                control_phase: ControlPhase::DataReceived,
                control_data: data,
                flags: self.flags.with(Flag::ControlOut, true),
                ..self
            }
        } else {
            self
        }
    }

    /// The answer of the control pipe to a data stage from the host.
    pub open spec fn control_out_handshake(self, data: Seq<u8>) -> Handshake {
        if !self.listening() || data.len() > CONTROL_BUFFER_SIZE {
            Handshake::NoResponse
        } else if self.control_phase == ControlPhase::AwaitingData {
            Handshake::Ack
        } else {
            Handshake::Nak
        }
    }

    /// What the host sees when it asks the control pipe for the answer.
    pub open spec fn control_answer(self) -> ControlAnswer {
        if !self.listening() {
            ControlAnswer::Pending
        } else {
            match self.control_phase {
                ControlPhase::Replying => ControlAnswer::Data,
                ControlPhase::Accepted => ControlAnswer::Accepted,
                ControlPhase::Stalled => ControlAnswer::Stalled,
                _ => ControlAnswer::Pending,
            }
        }
    }

    /// The data that comes with the answer of the control pipe.
    pub open spec fn control_answer_data(self) -> Seq<u8> {
        if self.control_answer() == ControlAnswer::Data {
            self.control_data
        } else {
            Seq::empty()
        }
    }

    /// The driver after the host has asked the control pipe for the
    /// answer: an answer that was ready is gone and flagged as taken; a
    /// stall stays.
    pub open spec fn on_control_in(self) -> DriverModel {
        if self.control_answer() == ControlAnswer::Data || self.control_answer()
            == ControlAnswer::Accepted {
            DriverModel {
                control_phase: ControlPhase::Idle,
                control_data: Seq::empty(),
                flags: self.flags.with(Flag::ControlIn, true),
                ..self
            }
        } else {
            self
        }
    }

    /// Whether the bulk-OUT endpoint takes a packet from the host.
    pub open spec fn bulk_accepts(self, toggle: bool, data: Seq<u8>) -> bool {
        self.listening() && self.bulk_out.accepts(toggle, data)
    }

    /// The driver after the host has sent a packet to the bulk-OUT
    /// endpoint.  Only an accepted packet is stored and flagged; one with
    /// the wrong toggle, or one that finds the endpoint full or disabled,
    /// changes nothing.
    pub open spec fn on_bulk_out(self, toggle: bool, data: Seq<u8>) -> DriverModel {
        if self.bulk_accepts(toggle, data) {
            DriverModel {
                bulk_out: self.bulk_out.received(toggle, data),
                flags: self.flags.with(Flag::BulkOut, true),
                ..self
            }
        } else {
            self
        }
    }

    /// The answer of the bulk-OUT endpoint to a packet from the host.
    pub open spec fn bulk_out_handshake(self, data: Seq<u8>) -> Handshake {
        if self.listening() {
            self.bulk_out.handshake(data)
        } else {
            Handshake::NoResponse
        }
    }

    /// The packet the host gets when it asks the bulk-IN endpoint.
    pub open spec fn bulk_in_packet(self) -> Option<Seq<u8>> {
        if self.listening() {
            self.bulk_in.held()
        } else {
            None
        }
    }

    /// The driver after the host has asked the bulk-IN endpoint for a
    /// packet.
    pub open spec fn on_bulk_in(self) -> DriverModel {
        if self.bulk_in_packet() is Some {
            DriverModel {
                bulk_in: self.bulk_in.transmitted(),
                flags: self.flags.with(Flag::BulkIn, true),
                ..self
            }
        } else {
            self
        }
    }

    /// The driver after the bus went idle or active again: the event is
    /// flagged.
    pub open spec fn on_power(self, flag: Flag) -> DriverModel {
        if self.listening() && (flag == Flag::Suspend || flag == Flag::Wake) {
            DriverModel { flags: self.flags.with(flag, true), ..self }
        } else {
            self
        }
    }
}

/// An event with the SETUP packet by its bytes.
pub enum EventModel {
    Reset,
    Setup(Seq<u8>),
    EndpointComplete(u8, Direction),
    Suspend,
    Wake,
}

/// The view of an event.
pub open spec fn event_view(event: Event) -> EventModel {
    match event {
        Event::Reset => EventModel::Reset,
        Event::Setup { raw } => EventModel::Setup(raw@),
        Event::EndpointComplete { endpoint, direction } => EventModel::EndpointComplete(
            endpoint,
            direction,
        ),
        Event::Suspend => EventModel::Suspend,
        Event::Wake => EventModel::Wake,
    }
}

pub open spec fn event_option_view(event: Option<Event>) -> Option<EventModel> {
    match event {
        Some(e) => Some(event_view(e)),
        None => None,
    }
}

/// The view of a read result.
pub open spec fn read_view(result: Result<Option<Vec<u8>>, UsbError>) -> Result<
    Option<Seq<u8>>,
    UsbError,
> {
    match result {
        Ok(packet) => Ok(option_view(packet)),
        Err(e) => Err(e),
    }
}

/// The peripheral driver.
pub struct UsbDriver {
    attached: bool,
    state: DeviceState,
    suspended: bool,
    address: u8,
    flags: EventFlags,
    setup: [u8; 8],
    max_packet_size_0: u8,
    control_phase: ControlPhase,
    control_data: Vec<u8>,
    bulk_out: Endpoint,
    bulk_in: Endpoint,
}

impl View for UsbDriver {
    type V = DriverModel;

    closed spec fn view(&self) -> DriverModel {
        DriverModel {
            attached: self.attached,
            state: self.state,
            suspended: self.suspended,
            address: self.address,
            flags: self.flags,
            setup: self.setup@,
            max_packet_size_0: self.max_packet_size_0,
            control_phase: self.control_phase,
            control_data: self.control_data@,
            bulk_out: self.bulk_out@,
            bulk_in: self.bulk_in@,
        }
    }
}

impl UsbDriver {
    pub open spec fn wf(&self) -> bool {
        self@.wf()
    }

    /// A driver for the endpoints that `config` describes, before
    /// bring-up.
    pub fn new(config: &DeviceConfig) -> (driver: UsbDriver)
        requires
            config.wf(),
        ensures
            driver.wf(),
            driver@ == DriverModel::powered_on(
                config@.max_packet_size_0,
                config@.bulk_packet_size,
            ),
    {
        let size_0: u8 = config.max_packet_size_0();
        let size: u16 = config.bulk_packet_size();
        let out_offset: u16 = BUFFER_TABLE_SIZE + size_0 as u16;
        let in_offset: u16 = out_offset + size;
        let setup: [u8; 8] = [0, 0, 0, 0, 0, 0, 0, 0];
        let driver = UsbDriver {
            attached: false,
            state: DeviceState::Default,
            suspended: false,
            address: 0,
            flags: EventFlags::new(),
            setup,
            max_packet_size_0: size_0,
            control_phase: ControlPhase::Idle,
            control_data: Vec::new(),
            bulk_out: Endpoint::new(
                BULK_ENDPOINT,
                Direction::Out,
                TransferType::Bulk,
                size,
                out_offset,
            ),
            bulk_in: Endpoint::new(BULK_ENDPOINT, Direction::In, TransferType::Bulk, size, in_offset),
        };
        assert(driver@.setup =~= Seq::new(8, |i: int| 0u8));
        driver
    }

    /// Brings the controller up and returns the steps in the order in
    /// which the hardware must see them.  The pull-up comes last.
    pub fn initialize(&mut self) -> (steps: [InitStep; 5])
        requires
            old(self).wf(),
        ensures
            final(self).wf(),
            final(self)@ == old(self)@.initialized(),
            steps@ == init_sequence(),
    {
        self.bus_reset();
        self.attached = true;
        let steps: [InitStep; 5] = [
            InitStep::EnableClocks,
            InitStep::ResetController,
            InitStep::ClearBufferTable,
            InitStep::EnterDefaultState,
            InitStep::AssertPullUp,
        ];
        assert(steps@ =~= init_sequence());
        steps
    }

    /// Handles a bus reset.  Doing so again changes nothing more.
    pub fn bus_reset(&mut self)
        requires
            old(self).wf(),
        ensures
            final(self).wf(),
            final(self)@ == old(self)@.after_reset(),
    {
        self.state = DeviceState::Default;
        self.suspended = false;
        self.address = 0;
        self.flags = EventFlags::new();
        self.control_phase = ControlPhase::Idle;
        self.control_data = Vec::new();
        self.bulk_out.disable();
        self.bulk_in.disable();
    }

    pub fn state(&self) -> (state: DeviceState)
        ensures
            state == self@.state,
    {
        self.state
    }

    pub fn address(&self) -> (address: u8)
        ensures
            address == self@.address,
    {
        self.address
    }

    pub fn is_suspended(&self) -> (suspended: bool)
        ensures
            suspended == self@.suspended,
    {
        self.suspended
    }

    pub fn is_attached(&self) -> (attached: bool)
        ensures
            attached == self@.attached,
    {
        self.attached
    }

    /// Whether a flag waits to be polled.
    pub fn has_event(&self) -> (pending: bool)
        ensures
            pending == self@.next_flag() is Some,
    {
        self.flags.pending()
    }

    /// The bulk endpoint of the given direction.
    pub fn bulk_endpoint(&self, direction: Direction) -> (endpoint: &Endpoint)
        ensures
            endpoint@ == match direction {
                Direction::Out => self@.bulk_out,
                Direction::In => self@.bulk_in,
            },
    {
        match direction {
            Direction::Out => &self.bulk_out,
            Direction::In => &self.bulk_in,
        }
    }

    /// Takes the most urgent pending flag and returns it as an event.
    pub fn poll_event(&mut self) -> (event: Option<Event>)
        requires
            old(self).wf(),
        ensures
            final(self).wf(),
            final(self)@ == old(self)@.polled(),
            event_option_view(event) == old(self)@.next_event(),
    {
        match self.flags.take() {
            None => None,
            Some(Flag::Reset) => {
                self.bus_reset();
                Some(Event::Reset)
            },
            Some(Flag::Setup) => Some(Event::Setup { raw: self.setup }),
            Some(Flag::ControlOut) => Some(
                Event::EndpointComplete { endpoint: CONTROL_ENDPOINT, direction: Direction::Out },
            ),
            Some(Flag::ControlIn) => Some(
                Event::EndpointComplete { endpoint: CONTROL_ENDPOINT, direction: Direction::In },
            ),
            Some(Flag::BulkOut) => Some(
                Event::EndpointComplete { endpoint: BULK_ENDPOINT, direction: Direction::Out },
            ),
            Some(Flag::BulkIn) => Some(
                Event::EndpointComplete { endpoint: BULK_ENDPOINT, direction: Direction::In },
            ),
            Some(Flag::Suspend) => {
                self.suspended = true;
                Some(Event::Suspend)
            },
            Some(Flag::Wake) => {
                self.suspended = false;
                Some(Event::Wake)
            },
        }
    }

    /// Records the address that the host has assigned, if it is from 1 to
    /// 127, and says whether it did.
    pub fn set_address(&mut self, address: u8) -> (done: bool)
        requires
            old(self).wf(),
        ensures
            final(self).wf(),
            final(self)@ == old(self)@.with_address(address),
            done == old(self)@.address_assignable(address),
    {
        if self.attached && 1 <= address && address <= MAX_ADDRESS {
            self.address = address;
            if self.state == DeviceState::Default {
                self.state = DeviceState::Addressed;
            }
            true
        } else {
            false
        }
    }

    /// Enters the configured state from the addressed state: enables both
    /// bulk endpoints and arms the bulk-OUT endpoint.  In any other state
    /// nothing changes.
    pub fn configure_endpoints(&mut self)
        requires
            old(self).wf(),
        ensures
            final(self).wf(),
            final(self)@ == old(self)@.configured(),
    {
        if self.state == DeviceState::Addressed {
            self.state = DeviceState::Configured;
            self.bulk_out.enable();
            self.bulk_in.enable();
        }
    }

    /// Leaves the configured state and disables both bulk endpoints.
    pub fn deconfigure(&mut self)
        requires
            old(self).wf(),
        ensures
            final(self).wf(),
            final(self)@ == old(self)@.deconfigured(),
    {
        if self.state == DeviceState::Configured {
            self.state = DeviceState::Addressed;
            self.bulk_out.disable();
            self.bulk_in.disable();
        }
    }

    /// Takes the packet that has arrived on data endpoint `endpoint`, if
    /// one has.  Fails with `EndpointDisabled` unless the device is
    /// configured and `endpoint` is the bulk endpoint.
    pub fn read_packet(&mut self, endpoint: u8) -> (result: Result<Option<Vec<u8>>, UsbError>)
        requires
            old(self).wf(),
        ensures
            final(self).wf(),
            final(self)@ == old(self)@.after_read(endpoint),
            read_view(result) == old(self)@.read_result(endpoint),
    {
        if endpoint == BULK_ENDPOINT && self.state == DeviceState::Configured {
            Ok(self.bulk_out.take())
        } else {
            Err(UsbError::EndpointDisabled)
        }
    }

    /// Offers `data` for sending on data endpoint `endpoint`.  Fails with
    /// `BufferOverflow` if the data does not fit one packet, and with
    /// `EndpointDisabled` unless the device is configured and `endpoint`
    /// is the bulk endpoint.  Returns whether the packet was taken: it is
    /// not while the packet before it is still in flight.
    pub fn write_packet(&mut self, endpoint: u8, data: &[u8]) -> (result: Result<bool, UsbError>)
        requires
            old(self).wf(),
        ensures
            final(self).wf(),
            final(self)@ == old(self)@.after_write(endpoint, data@),
            result == old(self)@.write_result(endpoint, data@),
    {
        if data.len() > self.bulk_in.max_packet_size() as usize {
            Err(UsbError::BufferOverflow)
        } else if endpoint == BULK_ENDPOINT && self.state == DeviceState::Configured {
            Ok(self.bulk_in.submit(data))
        } else {
            Err(UsbError::EndpointDisabled)
        }
    }

    fn control_open(&self) -> (open: bool)
        ensures
            open == self@.control_open(),
    {
        self.attached && !self.flags.setup && !self.flags.reset
    }

    /// Asks the control pipe to take the data stage of a control write.
    pub fn control_expect_data(&mut self)
        requires
            old(self).wf(),
        ensures
            final(self).wf(),
            final(self)@ == old(self)@.with_control(ControlPhase::AwaitingData, Seq::empty()),
    {
        if self.control_open() {
            self.control_phase = ControlPhase::AwaitingData;
            self.control_data = Vec::new();
        }
    }

    /// Takes the data stage that has arrived on the control pipe, if one
    /// has.
    pub fn control_take_data(&mut self) -> (data: Option<Vec<u8>>)
        requires
            old(self).wf(),
        ensures
            final(self).wf(),
            final(self)@ == old(self)@.control_released(),
            option_view(data) == old(self)@.control_held(),
    {
        if self.control_phase == ControlPhase::DataReceived {
            let mut data: Vec<u8> = Vec::new();
            std::mem::swap(&mut data, &mut self.control_data);
            self.control_phase = ControlPhase::Idle;
            Some(data)
        } else {
            None
        }
    }

    /// Answers the control request with `data`.
    pub fn control_reply(&mut self, data: &[u8])
        requires
            old(self).wf(),
        ensures
            final(self).wf(),
            final(self)@ == old(self)@.with_control(ControlPhase::Replying, data@),
    {
        if self.control_open() {
            self.control_phase = ControlPhase::Replying;
            self.control_data = vstd::slice::slice_to_vec(data);
        }
    }

    /// Answers the control request with success.
    pub fn control_accept(&mut self)
        requires
            old(self).wf(),
        ensures
            final(self).wf(),
            final(self)@ == old(self)@.with_control(ControlPhase::Accepted, Seq::empty()),
    {
        if self.control_open() {
            self.control_phase = ControlPhase::Accepted;
            self.control_data = Vec::new();
        }
    }

    /// Answers the control request with a STALL.
    pub fn control_stall(&mut self)
        requires
            old(self).wf(),
        ensures
            final(self).wf(),
            final(self)@ == old(self)@.with_control(ControlPhase::Stalled, Seq::empty()),
    {
        if self.control_open() {
            self.control_phase = ControlPhase::Stalled;
            self.control_data = Vec::new();
        }
    }

    fn listening(&self) -> (listening: bool)
        ensures
            listening == self@.listening(),
    {
        self.attached && !self.flags.reset
    }

    /// The host resets the bus.
    pub fn irq_reset(&mut self)
        requires
            old(self).wf(),
        ensures
            final(self).wf(),
            final(self)@ == old(self)@.on_reset(),
    {
        if self.attached {
            self.flags.raise(Flag::Reset);
        }
    }

    /// The host sends a SETUP packet.
    pub fn irq_setup(&mut self, raw: [u8; 8])
        requires
            old(self).wf(),
        ensures
            final(self).wf(),
            final(self)@ == old(self)@.on_setup(raw@),
    {
        if self.listening() {
            self.setup = raw;
            self.flags.raise(Flag::Setup);
            self.control_phase = ControlPhase::Idle;
            self.control_data = Vec::new();
        }
    }

    /// The host sends the data stage of a control write.
    pub fn irq_control_out(&mut self, data: &[u8]) -> (answer: Handshake)
        requires
            old(self).wf(),
        ensures
            final(self).wf(),
            final(self)@ == old(self)@.on_control_out(data@),
            answer == old(self)@.control_out_handshake(data@),
    {
        if !self.listening() || data.len() > CONTROL_BUFFER_SIZE {
            Handshake::NoResponse
        } else if self.control_phase == ControlPhase::AwaitingData {
            self.control_data = vstd::slice::slice_to_vec(data);
            self.control_phase = ControlPhase::DataReceived;
            self.flags.raise(Flag::ControlOut);
            Handshake::Ack
        } else {
            Handshake::Nak
        }
    }

    /// The host asks for the answer to a control request.  Data comes
    /// with the answer `Data` and with no other.
    pub fn irq_control_in(&mut self) -> (answer: (ControlAnswer, Vec<u8>))
        requires
            old(self).wf(),
        ensures
            final(self).wf(),
            final(self)@ == old(self)@.on_control_in(),
            answer.0 == old(self)@.control_answer(),
            answer.1@ == old(self)@.control_answer_data(),
    {
        if !self.listening() {
            return (ControlAnswer::Pending, Vec::new());
        }
        let phase: ControlPhase = self.control_phase;
        match phase {
            ControlPhase::Replying => {
                let mut data: Vec<u8> = Vec::new();
                std::mem::swap(&mut data, &mut self.control_data);
                self.control_phase = ControlPhase::Idle;
                self.flags.raise(Flag::ControlIn);
                (ControlAnswer::Data, data)
            },
            ControlPhase::Accepted => {
                assert(self.control_data@ =~= Seq::empty());
                self.control_phase = ControlPhase::Idle;
                self.flags.raise(Flag::ControlIn);
                (ControlAnswer::Accepted, Vec::new())
            },
            ControlPhase::Stalled => (ControlAnswer::Stalled, Vec::new()),
            _ => (ControlAnswer::Pending, Vec::new()),
        }
    }

    /// The host sends a packet with the given data toggle to the bulk-OUT
    /// endpoint.
    pub fn irq_bulk_out(&mut self, toggle: bool, data: &[u8]) -> (answer: Handshake)
        requires
            old(self).wf(),
        ensures
            final(self).wf(),
            final(self)@ == old(self)@.on_bulk_out(toggle, data@),
            answer == old(self)@.bulk_out_handshake(data@),
    {
        if !self.listening() {
            return Handshake::NoResponse;
        }
        let armed: bool = self.bulk_out.slot() == Slot::Empty;
        let expected: bool = self.bulk_out.toggle();
        let answer = self.bulk_out.receive(toggle, data);
        if armed && toggle == expected && data.len() <= self.bulk_out.max_packet_size() as usize {
            self.flags.raise(Flag::BulkOut);
        }
        answer
    }

    /// The host asks the bulk-IN endpoint for a packet.
    pub fn irq_bulk_in(&mut self) -> (packet: Option<Vec<u8>>)
        requires
            old(self).wf(),
        ensures
            final(self).wf(),
            final(self)@ == old(self)@.on_bulk_in(),
            option_view(packet) == old(self)@.bulk_in_packet(),
    {
        if !self.listening() {
            return None;
        }
        let packet = self.bulk_in.transmit();
        if packet.is_some() {
            self.flags.raise(Flag::BulkIn);
        }
        packet
    }

    /// The bus goes idle.
    pub fn irq_suspend(&mut self)
        requires
            old(self).wf(),
        ensures
            final(self).wf(),
            final(self)@ == old(self)@.on_power(Flag::Suspend),
    {
        if self.listening() {
            self.flags.raise(Flag::Suspend);
        }
    }

    /// The bus becomes active again.
    pub fn irq_wake(&mut self)
        requires
            old(self).wf(),
        ensures
            final(self).wf(),
            final(self)@ == old(self)@.on_power(Flag::Wake),
    {
        if self.listening() {
            self.flags.raise(Flag::Wake);
        }
    }
}

} // verus!
