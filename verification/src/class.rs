//! The CDC-ACM class: control requests on one side, packet reads and
//! writes for a task on the other.
//!
//! Nothing here waits.  An operation that cannot complete yet reports
//! that it is suspended and is simply asked again later.

use crate::descriptor::{ConfigModel, DeviceConfig};
use crate::driver::{
    event_view, ControlPhase, DeviceState, DriverModel, EventModel, UsbDriver, BULK_ENDPOINT,
    CONTROL_ENDPOINT,
};
use crate::error::UsbError;
use crate::events::Event;
use crate::line_coding::{LineCoding, LineState};
use crate::setup::{ControlRequest, Direction, SetupPacket};
use vstd::prelude::*;

verus! {

/// Where the class stands with control requests.
#[derive(Clone, Copy, Debug, PartialEq, Eq, Structural)]
pub enum ControlState {
    /// No request is in progress.
    Idle,
    /// A request was received whose data stage is awaited.
    ControlRequestPending(SetupPacket),
}

/// Where a read or a write of the task stands.
#[derive(Clone, Copy, Debug, PartialEq, Eq, Structural)]
pub enum Suspension {
    /// The operation is not in progress.
    Idle,
    /// The operation was asked for and could not complete yet.
    Suspended,
    /// A bus reset arrived while the operation was suspended.
    Aborted,
}

impl Suspension {
    /// The state after a bus reset: a suspended operation is aborted.
    pub open spec fn after_reset(self) -> Suspension {
        if self == Suspension::Suspended {
            Suspension::Aborted
        } else {
            self
        }
    }
}

/// The class state.
#[derive(Clone, Copy, Debug, PartialEq, Eq, Structural)]
pub struct CdcAcm {
    /// What the host has set on the virtual port.
    pub line: LineState,
    pub control: ControlState,
    /// The host has asserted DTR and no task has taken notice yet.
    pub connect_signal: bool,
    pub read: Suspension,
    pub write: Suspension,
}

/// The class and the driver after an operation, with what it returned.
pub struct Outcome<R> {
    pub class: CdcAcm,
    pub driver: DriverModel,
    pub result: R,
}

/// At most the first `length` bytes of `bytes`.
pub open spec fn truncated(bytes: Seq<u8>, length: u16) -> Seq<u8> {
    if bytes.len() <= length {
        bytes
    } else {
        bytes.subrange(0, length as int)
    }
}

impl CdcAcm {
    /// The class after power-on.
    pub open spec fn initial() -> CdcAcm {
        CdcAcm {
            line: LineState::initial(),
            control: ControlState::Idle,
            connect_signal: false,
            read: Suspension::Idle,
            write: Suspension::Idle,
        }
    }

    /// The class after a bus reset: the line state is back to its initial
    /// value, a control request in progress is abandoned, no connection
    /// is signalled, and a suspended read or write is aborted.
    pub open spec fn after_reset(self) -> CdcAcm {
        CdcAcm {
            line: LineState::initial(),
            control: ControlState::Idle,
            connect_signal: false,
            read: self.read.after_reset(),
            write: self.write.after_reset(),
        }
    }

    /// The class after the host has set the control lines to `value`: a
    /// connection is signalled when DTR rises, and a signal that no task
    /// has taken notice of stays.
    pub open spec fn after_control_lines(self, value: u16) -> CdcAcm {
        CdcAcm {
            line: self.line.with_control_lines(value),
            connect_signal: self.connect_signal || self.line.dtr_rises(value),
            ..self
        }
    }

    /// The class and the driver after a request was refused.
    pub open spec fn stalled(self, driver: DriverModel) -> Outcome<Result<(), UsbError>> {
        Outcome {
            class: CdcAcm { control: ControlState::Idle, ..self },
            driver: driver.with_control(ControlPhase::Stalled, Seq::empty()),
            result: Err(UsbError::ProtocolStall),
        }
    }

    /// The class and the driver after a request was carried out that has
    /// no data for the host.
    pub open spec fn accepted(self, driver: DriverModel) -> Outcome<Result<(), UsbError>> {
        Outcome {
            class: CdcAcm { control: ControlState::Idle, ..self },
            driver: driver.with_control(ControlPhase::Accepted, Seq::empty()),
            result: Ok(()),
        }
    }

    /// The class and the driver after a request was answered with `data`.
    pub open spec fn replied(self, driver: DriverModel, data: Seq<u8>) -> Outcome<
        Result<(), UsbError>,
    > {
        Outcome {
            class: CdcAcm { control: ControlState::Idle, ..self },
            driver: driver.with_control(ControlPhase::Replying, data),
            result: Ok(()),
        }
    }

    /// The class and the driver after the request that the SETUP packet
    /// `setup` stands for was handled.
    ///
    /// A descriptor is sent cut to the length the host asks for.  An
    /// address is recorded.  Selecting the configuration needs an address
    /// first.  A line coding waits for its data stage.  Setting the
    /// control lines signals a connection when DTR rises.  Everything
    /// else, and every request that cannot be carried out, is stalled.
    pub open spec fn after_request(
        self,
        driver: DriverModel,
        config: ConfigModel,
        setup: SetupPacket,
    ) -> Outcome<Result<(), UsbError>> {
        match setup.spec_classify() {
            ControlRequest::GetDescriptor { kind, index, length } => match config.descriptor(
                kind,
                index,
            ) {
                Some(bytes) => self.replied(driver, truncated(bytes, length)),
                None => self.stalled(driver),
            },
            ControlRequest::SetAddress { address } => if driver.address_assignable(address) {
                self.accepted(driver.with_address(address))
            } else {
                self.stalled(driver)
            },
            ControlRequest::SetConfiguration { configured } => if !configured {
                self.accepted(driver.deconfigured())
            } else if driver.state == DeviceState::Default {
                self.stalled(driver)
            } else {
                self.accepted(driver.configured())
            },
            ControlRequest::SetLineCoding => Outcome {
                class: CdcAcm { control: ControlState::ControlRequestPending(setup), ..self },
                driver: driver.with_control(ControlPhase::AwaitingData, Seq::empty()),
                result: Ok(()),
            },
            ControlRequest::GetLineCoding => self.replied(driver, self.line.coding.spec_encode()),
            ControlRequest::SetControlLineState { value } => self.after_control_lines(
                value,
            ).accepted(driver),
            ControlRequest::Unsupported => self.stalled(driver),
        }
    }

    /// The class and the driver after the SETUP packet `raw` was handled.
    pub open spec fn after_setup(self, driver: DriverModel, config: ConfigModel, raw: Seq<u8>) -> Outcome<
        Result<(), UsbError>,
    > {
        self.after_request(driver, config, SetupPacket::spec_parse(raw))
    }

    /// The class and the driver after the data stage of a control write
    /// was handled.  A SET_LINE_CODING request whose data is seven bytes
    /// sets the line coding; with any other data it is stalled.
    pub open spec fn after_control_data(self, driver: DriverModel) -> Outcome<Result<(), UsbError>> {
        match self.control {
            ControlState::Idle => Outcome { class: self, driver, result: Ok(()) },
            ControlState::ControlRequestPending(setup) => match driver.control_held() {
                None => Outcome { class: self, driver, result: Ok(()) },
                Some(data) => match LineCoding::spec_decode(data) {
                    Some(coding) => if setup.spec_classify() == ControlRequest::SetLineCoding {
                        (CdcAcm { line: self.line.with_coding(coding), ..self }).accepted(
                            driver.control_released(),
                        )
                    } else {
                        self.stalled(driver.control_released())
                    },
                    None => self.stalled(driver.control_released()),
                },
            },
        }
    }

    /// The class and the driver after `event`, as the driver reported it,
    /// was handled.
    pub open spec fn after_event(
        self,
        driver: DriverModel,
        config: ConfigModel,
        event: EventModel,
    ) -> Outcome<Result<(), UsbError>> {
        match event {
            EventModel::Reset => Outcome {
                class: self.after_reset(),
                driver,
                result: Ok(()),
            },
            EventModel::Setup(raw) => self.after_setup(driver, config, raw),
            EventModel::EndpointComplete(endpoint, direction) => if endpoint
                == CONTROL_ENDPOINT && direction == Direction::Out {
                self.after_control_data(driver)
            } else {
                Outcome { class: self, driver, result: Ok(()) }
            },
            _ => Outcome { class: self, driver, result: Ok(()) },
        }
    }

    /// Whether a task that waits for a connection may go on, and the
    /// class after it was asked: a signalled connection is taken notice
    /// of once.
    pub open spec fn after_wait(self) -> (CdcAcm, bool) {
        (CdcAcm { connect_signal: false, ..self }, self.connect_signal)
    }

    /// The class and the driver after a task has asked for a packet.
    /// `None` says that the read is suspended.  A read that a bus reset
    /// has aborted ends with `Disconnected`.
    pub open spec fn after_read(self, driver: DriverModel) -> Outcome<
        Option<Result<Seq<u8>, UsbError>>,
    > {
        if self.read == Suspension::Aborted {
            Outcome {
                class: CdcAcm { read: Suspension::Idle, ..self },
                driver,
                result: Some(Err(UsbError::Disconnected)),
            }
        } else {
            match driver.read_result(BULK_ENDPOINT) {
                Ok(Some(packet)) => Outcome {
                    class: CdcAcm { read: Suspension::Idle, ..self },
                    driver: driver.after_read(BULK_ENDPOINT),
                    result: Some(Ok(packet)),
                },
                Ok(None) => Outcome {
                    class: CdcAcm { read: Suspension::Suspended, ..self },
                    driver: driver.after_read(BULK_ENDPOINT),
                    result: None,
                },
                Err(e) => Outcome {
                    class: CdcAcm { read: Suspension::Idle, ..self },
                    driver: driver.after_read(BULK_ENDPOINT),
                    result: Some(Err(e)),
                },
            }
        }
    }

    /// The class and the driver after a task has asked to send `data`.
    /// `None` says that the write is suspended: the packet before it is
    /// still in flight.  A write that a bus reset has aborted ends with
    /// `Disconnected`.
    pub open spec fn after_write(self, driver: DriverModel, data: Seq<u8>) -> Outcome<
        Option<Result<(), UsbError>>,
    > {
        if self.write == Suspension::Aborted {
            Outcome {
                class: CdcAcm { write: Suspension::Idle, ..self },
                driver,
                result: Some(Err(UsbError::Disconnected)),
            }
        } else {
            match driver.write_result(BULK_ENDPOINT, data) {
                Ok(true) => Outcome {
                    class: CdcAcm { write: Suspension::Idle, ..self },
                    driver: driver.after_write(BULK_ENDPOINT, data),
                    result: Some(Ok(())),
                },
                Ok(false) => Outcome {
                    class: CdcAcm { write: Suspension::Suspended, ..self },
                    driver: driver.after_write(BULK_ENDPOINT, data),
                    result: None,
                },
                Err(e) => Outcome {
                    class: CdcAcm { write: Suspension::Idle, ..self },
                    driver: driver.after_write(BULK_ENDPOINT, data),
                    result: Some(Err(e)),
                },
            }
        }
    }
}

/// The view of what a read returns.
pub open spec fn read_outcome_view(result: Option<Result<Vec<u8>, UsbError>>) -> Option<
    Result<Seq<u8>, UsbError>,
> {
    match result {
        Some(Ok(packet)) => Some(Ok(packet@)),
        Some(Err(e)) => Some(Err(e)),
        None => None,
    }
}

impl CdcAcm {
    pub fn new() -> (class: CdcAcm)
        ensures
            class == CdcAcm::initial(),
    {
        CdcAcm {
            line: LineState::new(),
            control: ControlState::Idle,
            connect_signal: false,
            read: Suspension::Idle,
            write: Suspension::Idle,
        }
    }

    /// Abandons everything in progress after a bus reset.
    pub fn reset(&mut self)
        ensures
            *final(self) == old(self).after_reset(),
    {
        self.line = LineState::new();
        self.control = ControlState::Idle;
        self.connect_signal = false;
        if self.read == Suspension::Suspended {
            self.read = Suspension::Aborted;
        }
        if self.write == Suspension::Suspended {
            self.write = Suspension::Aborted;
        }
    }

    fn stall(&mut self, driver: &mut UsbDriver) -> (result: Result<(), UsbError>)
        requires
            old(driver).wf(),
        ensures
            final(driver).wf(),
            *final(self) == old(self).stalled(old(driver)@).class,
            final(driver)@ == old(self).stalled(old(driver)@).driver,
            result == old(self).stalled(old(driver)@).result,
    {
        self.control = ControlState::Idle;
        driver.control_stall();
        Err(UsbError::ProtocolStall)
    }

    fn accept(&mut self, driver: &mut UsbDriver) -> (result: Result<(), UsbError>)
        requires
            old(driver).wf(),
        ensures
            final(driver).wf(),
            *final(self) == old(self).accepted(old(driver)@).class,
            final(driver)@ == old(self).accepted(old(driver)@).driver,
            result == old(self).accepted(old(driver)@).result,
    {
        self.control = ControlState::Idle;
        driver.control_accept();
        Ok(())
    }

    fn reply(&mut self, driver: &mut UsbDriver, data: &[u8]) -> (result: Result<(), UsbError>)
        requires
            old(driver).wf(),
        ensures
            final(driver).wf(),
            *final(self) == old(self).replied(old(driver)@, data@).class,
            final(driver)@ == old(self).replied(old(driver)@, data@).driver,
            result == old(self).replied(old(driver)@, data@).result,
    {
        self.control = ControlState::Idle;
        driver.control_reply(data);
        Ok(())
    }

    /// Handles a SETUP packet: carries the request out and answers it on
    /// the control pipe.  Returns `ProtocolStall` for a request that was
    /// refused.
    pub fn handle_setup(&mut self, raw: &[u8; 8], driver: &mut UsbDriver, config: &DeviceConfig) -> (result:
        Result<(), UsbError>)
        requires
            old(driver).wf(),
            config.wf(),
        ensures
            final(driver).wf(),
            *final(self) == old(self).after_setup(old(driver)@, config@, raw@).class,
            final(driver)@ == old(self).after_setup(old(driver)@, config@, raw@).driver,
            result == old(self).after_setup(old(driver)@, config@, raw@).result,
    {
        let setup = SetupPacket::parse(raw);
        match setup.classify() {
            ControlRequest::GetDescriptor { kind, index, length } => {
                match config.descriptor(kind, index) {
                    Some(bytes) => {
                        if bytes.len() <= length as usize {
                            self.reply(driver, bytes.as_slice())
                        } else {
                            let head = vstd::slice::slice_subrange(
                                bytes.as_slice(),
                                0,
                                length as usize,
                            );
                            self.reply(driver, head)
                        }
                    },
                    None => self.stall(driver),
                }
            },
            ControlRequest::SetAddress { address } => {
                if driver.set_address(address) {
                    self.accept(driver)
                } else {
                    self.stall(driver)
                }
            },
            ControlRequest::SetConfiguration { configured } => {
                if !configured {
                    driver.deconfigure();
                    self.accept(driver)
                } else if driver.state() == DeviceState::Default {
                    self.stall(driver)
                } else {
                    driver.configure_endpoints();
                    self.accept(driver)
                }
            },
            ControlRequest::SetLineCoding => {
                self.control = ControlState::ControlRequestPending(setup);
                driver.control_expect_data();
                Ok(())
            },
            ControlRequest::GetLineCoding => {
                let bytes = self.line.coding.encode();
                self.reply(driver, bytes.as_slice())
            },
            ControlRequest::SetControlLineState { value } => {
                let rose = self.line.set_control_lines(value);
                if rose {
                    self.connect_signal = true;
                }
                self.accept(driver)
            },
            ControlRequest::Unsupported => self.stall(driver),
        }
    }

    /// Handles the data stage of a control write.
    pub fn handle_control_data(&mut self, driver: &mut UsbDriver) -> (result: Result<(), UsbError>)
        requires
            old(driver).wf(),
        ensures
            final(driver).wf(),
            *final(self) == old(self).after_control_data(old(driver)@).class,
            final(driver)@ == old(self).after_control_data(old(driver)@).driver,
            result == old(self).after_control_data(old(driver)@).result,
    {
        match self.control {
            ControlState::Idle => Ok(()),
            ControlState::ControlRequestPending(setup) => {
                match driver.control_take_data() {
                    None => Ok(()),
                    Some(data) => {
                        match LineCoding::decode(data.as_slice()) {
                            Some(coding) => {
                                if setup.classify() == ControlRequest::SetLineCoding {
                                    self.line.set_coding(coding);
                                    self.accept(driver)
                                } else {
                                    self.stall(driver)
                                }
                            },
                            None => self.stall(driver),
                        }
                    },
                }
            },
        }
    }

    /// Handles one event that the driver has reported.
    pub fn handle_event(&mut self, event: Event, driver: &mut UsbDriver, config: &DeviceConfig) -> (result:
        Result<(), UsbError>)
        requires
            old(driver).wf(),
            config.wf(),
        ensures
            final(driver).wf(),
            *final(self) == old(self).after_event(
                old(driver)@,
                config@,
                event_view(event),
            ).class,
            final(driver)@ == old(self).after_event(
                old(driver)@,
                config@,
                event_view(event),
            ).driver,
            result == old(self).after_event(
                old(driver)@,
                config@,
                event_view(event),
            ).result,
    {
        match event {
            Event::Reset => {
                self.reset();
                Ok(())
            },
            Event::Setup { raw } => self.handle_setup(&raw, driver, config),
            Event::EndpointComplete { endpoint, direction } => {
                if endpoint == CONTROL_ENDPOINT && direction == Direction::Out {
                    self.handle_control_data(driver)
                } else {
                    Ok(())
                }
            },
            _ => Ok(()),
        }
    }

    /// Asks whether the host has opened the port since this was last
    /// asked.  `false` says that the caller is suspended.
    pub fn wait_for_connection(&mut self) -> (ready: bool)
        ensures
            *final(self) == old(self).after_wait().0,
            ready == old(self).after_wait().1,
    {
        let ready = self.connect_signal;
        self.connect_signal = false;
        ready
    }

    /// Asks for the next packet from the host.  `None` says that the
    /// caller is suspended.
    pub fn read(&mut self, driver: &mut UsbDriver) -> (result: Option<Result<Vec<u8>, UsbError>>)
        requires
            old(driver).wf(),
        ensures
            final(driver).wf(),
            *final(self) == old(self).after_read(old(driver)@).class,
            final(driver)@ == old(self).after_read(old(driver)@).driver,
            read_outcome_view(result) == old(self).after_read(old(driver)@).result,
    {
        if self.read == Suspension::Aborted {
            self.read = Suspension::Idle;
            return Some(Err(UsbError::Disconnected));
        }
        match driver.read_packet(BULK_ENDPOINT) {
            Ok(Some(packet)) => {
                self.read = Suspension::Idle;
                Some(Ok(packet))
            },
            Ok(None) => {
                self.read = Suspension::Suspended;
                None
            },
            Err(e) => {
                self.read = Suspension::Idle;
                Some(Err(e))
            },
        }
    }

    /// Asks to send `data` to the host as one packet.  `None` says that
    /// the caller is suspended.
    pub fn write(&mut self, data: &[u8], driver: &mut UsbDriver) -> (result: Option<
        Result<(), UsbError>,
    >)
        requires
            old(driver).wf(),
        ensures
            final(driver).wf(),
            *final(self) == old(self).after_write(old(driver)@, data@).class,
            final(driver)@ == old(self).after_write(old(driver)@, data@).driver,
            result == old(self).after_write(old(driver)@, data@).result,
    {
        if self.write == Suspension::Aborted {
            self.write = Suspension::Idle;
            return Some(Err(UsbError::Disconnected));
        }
        match driver.write_packet(BULK_ENDPOINT, data) {
            Ok(true) => {
                self.write = Suspension::Idle;
                Some(Ok(()))
            },
            Ok(false) => {
                self.write = Suspension::Suspended;
                None
            },
            Err(e) => {
                self.write = Suspension::Idle;
                Some(Err(e))
            },
        }
    }
}

} // verus!
