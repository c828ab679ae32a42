//! The firmware as a whole: the driver, the class and the two tasks under
//! one cooperative scheduler.
//!
//! A wake cycle lets the serial task run until it is blocked or its
//! budget is used up, polls the light task, and says how long the
//! processor may sleep.  Neither task can keep the other from running.

use crate::bytes::option_view;
use crate::class::CdcAcm;
use crate::descriptor::{ConfigModel, DeviceConfig, StringTable};
use crate::driver::{
    event_view, init_sequence, ControlAnswer, DriverModel, EventModel, InitStep, UsbDriver,
};
use crate::endpoint::Handshake;
use crate::events::Flag;
use crate::task::{LedTask, Operation, TaskModel, UsbTask, HALF_PERIOD_MS};
use vstd::prelude::*;

verus! {

/// Most service steps the serial task gets in one wake cycle.
pub const SERVICE_BUDGET: u32 = 4;

/// Vendor id of the device.
pub const VENDOR_ID: u16 = 0x16c0;

/// Product id of the device.
pub const PRODUCT_ID: u16 = 0x27dd;

/// Packet size of the control endpoint and of both bulk endpoints.
pub const PACKET_SIZE: u8 = 64;

/// Current the device asks for, in milliamperes.
pub const POWER_MA: u16 = 100;

/// The configuration the firmware is built with: its ids, the strings
/// `ch32-rs`, `ZEDBOP` and `12345678`, packets of 64 bytes, 100 mA.
pub open spec fn standard_config() -> ConfigModel {
    ConfigModel {
        vendor_id: VENDOR_ID,
        product_id: PRODUCT_ID,
        manufacturer: Some(seq!['c' as u8, 'h' as u8, '3' as u8, '2' as u8, '-' as u8, 'r' as u8, 's' as u8]),
        product: Some(seq!['Z' as u8, 'E' as u8, 'D' as u8, 'B' as u8, 'O' as u8, 'P' as u8]),
        serial_number: Some(seq!['1' as u8, '2' as u8, '3' as u8, '4' as u8, '5' as u8, '6' as u8, '7' as u8, '8' as u8]),
        max_packet_size_0: PACKET_SIZE,
        bulk_packet_size: PACKET_SIZE as u16,
        max_power_ma: POWER_MA,
    }
}

/// Builds the configuration the firmware is built with.
pub fn build_standard_config() -> (config: DeviceConfig)
    ensures
        config.wf(),
        config@ == standard_config(),
{
    let manufacturer: [u8; 7] = ['c' as u8, 'h' as u8, '3' as u8, '2' as u8, '-' as u8, 'r' as u8, 's' as u8];
    let product: [u8; 6] = ['Z' as u8, 'E' as u8, 'D' as u8, 'B' as u8, 'O' as u8, 'P' as u8];
    let serial_number: [u8; 8] = ['1' as u8, '2' as u8, '3' as u8, '4' as u8, '5' as u8, '6' as u8, '7' as u8, '8' as u8];
    let strings = StringTable {
        manufacturer: Some(vstd::slice::slice_to_vec(manufacturer.as_slice())),
        product: Some(vstd::slice::slice_to_vec(product.as_slice())),
        serial_number: Some(vstd::slice::slice_to_vec(serial_number.as_slice())),
    };
    assert(strings.manufacturer->0@ =~= standard_config().manufacturer->0);
    assert(strings.product->0@ =~= standard_config().product->0);
    assert(strings.serial_number->0@ =~= standard_config().serial_number->0);
    let built = DeviceConfig::new(
        VENDOR_ID,
        PRODUCT_ID,
        strings,
        PACKET_SIZE,
        PACKET_SIZE as u16,
        POWER_MA,
    );
    built.unwrap()
}

/// What the processor does after a wake cycle.
#[derive(Clone, Copy, Debug, PartialEq, Eq, Structural)]
pub enum Sleep {
    /// The serial task has used up its budget and may have more to do:
    /// the next wake cycle follows at once.
    RunAgain,
    /// Both tasks are blocked: sleep until the next interrupt, or until
    /// the time at which the light changes, whichever is first.
    UntilInterruptOr { deadline_ms: u64 },
}

/// The firmware as a value.
pub struct SystemModel {
    pub config: ConfigModel,
    pub driver: DriverModel,
    pub class: CdcAcm,
    pub task: TaskModel,
    pub led: LedTask,
    /// The level of the write-protect pin.
    pub write_protect: bool,
}

impl SystemModel {
    /// The parts are well formed, the driver has the endpoint sizes of
    /// the configuration, and the write-protect pin is high.
    pub open spec fn wf(self) -> bool {
        &&& self.config.valid()
        &&& self.driver.wf()
        &&& self.driver.max_packet_size_0 == self.config.max_packet_size_0
        &&& self.driver.bulk_out.max_packet_size == self.config.bulk_packet_size
        &&& self.write_protect
    }

    /// The firmware after power-on at `now_ms`: the controller is brought
    /// up, the serial task waits for a connection, the light is on, and
    /// the write-protect pin is high.
    pub open spec fn powered_on(config: ConfigModel, now_ms: u64) -> SystemModel {
        SystemModel {
            config,
            driver: DriverModel::powered_on(
                config.max_packet_size_0,
                config.bulk_packet_size,
            ).initialized(),
            class: CdcAcm::initial(),
            task: TaskModel::AwaitingConnection,
            led: LedTask::started(now_ms),
            write_protect: true,
        }
    }

    /// The firmware after the most urgent pending event, if any, was
    /// taken from the driver and handled by the class.
    pub open spec fn after_event(self) -> SystemModel {
        match self.driver.next_event() {
            None => self,
            Some(event) => {
                let outcome = self.class.after_event(self.driver.polled(), self.config, event);
                SystemModel { driver: outcome.driver, class: outcome.class, ..self }
            },
        }
    }

    /// Whether the operation the serial task is suspended on can
    /// complete now.
    pub open spec fn task_ready(self) -> bool {
        match self.task.operation() {
            Operation::WaitConnection => self.class.after_wait().1,
            Operation::Write => self.class.after_write(
                self.driver,
                self.task.outgoing(),
            ).result is Some,
            Operation::Read => self.class.after_read(self.driver).result is Some,
        }
    }

    /// The firmware after the serial task has tried the operation it is
    /// suspended on, and has moved on if the operation completed.
    pub open spec fn after_task(self) -> SystemModel {
        match self.task.operation() {
            Operation::WaitConnection => {
                let (class, ready) = self.class.after_wait();
                SystemModel {
                    class,
                    task: if ready {
                        self.task.connected()
                    } else {
                        self.task
                    },
                    ..self
                }
            },
            Operation::Write => {
                let outcome = self.class.after_write(self.driver, self.task.outgoing());
                SystemModel {
                    class: outcome.class,
                    driver: outcome.driver,
                    task: match outcome.result {
                        Some(result) => self.task.written(result),
                        None => self.task,
                    },
                    ..self
                }
            },
            Operation::Read => {
                let outcome = self.class.after_read(self.driver);
                SystemModel {
                    class: outcome.class,
                    driver: outcome.driver,
                    task: match outcome.result {
                        Some(result) => self.task.received(result),
                        None => self.task,
                    },
                    ..self
                }
            },
        }
    }

    /// The firmware after one service step: one event, then one try of
    /// the serial task.
    pub open spec fn serviced(self) -> SystemModel {
        self.after_event().after_task()
    }

    /// Whether a service step gets anything done: it handles an event or
    /// lets the serial task move on.
    pub open spec fn service_progress(self) -> bool {
        self.driver.next_flag() is Some || self.after_event().task_ready()
    }

    /// The firmware after the serial task has run with a budget of
    /// `budget` service steps, and whether it ended blocked.  The step
    /// that finds nothing to do is the last one.
    pub open spec fn run(self, budget: nat) -> (SystemModel, bool)
        decreases budget,
    {
        if budget == 0 {
            (self, false)
        } else if !self.service_progress() {
            (self.serviced(), true)
        } else {
            self.serviced().run((budget - 1) as nat)
        }
    }

    /// The firmware after a wake cycle at `now_ms`.
    pub open spec fn after_wake_cycle(self, now_ms: u64) -> SystemModel {
        let ran = self.run(SERVICE_BUDGET as nat).0;
        SystemModel { led: ran.led.polled(now_ms), ..ran }
    }

    /// What the processor does after a wake cycle at `now_ms`.
    pub open spec fn sleep_after(self, now_ms: u64) -> Sleep {
        if self.run(SERVICE_BUDGET as nat).1 {
            Sleep::UntilInterruptOr { deadline_ms: self.after_wake_cycle(now_ms).led.deadline_ms }
        } else {
            Sleep::RunAgain
        }
    }
}

/// Handling an event changes no endpoint size.
pub proof fn lemma_event_keeps_sizes(
    class: CdcAcm,
    driver: DriverModel,
    config: ConfigModel,
    event: EventModel,
)
    ensures
        class.after_event(driver, config, event).driver.max_packet_size_0
            == driver.max_packet_size_0,
        class.after_event(driver, config, event).driver.bulk_out.max_packet_size
            == driver.bulk_out.max_packet_size,
        class.after_event(driver, config, event).driver.bulk_in.max_packet_size
            == driver.bulk_in.max_packet_size,
{
}

/// The firmware.
pub struct Firmware {
    config: DeviceConfig,
    driver: UsbDriver,
    class: CdcAcm,
    task: UsbTask,
    led: LedTask,
    write_protect: bool,
}

impl View for Firmware {
    type V = SystemModel;

    closed spec fn view(&self) -> SystemModel {
        SystemModel {
            config: self.config@,
            driver: self.driver@,
            class: self.class,
            task: self.task@,
            led: self.led,
            write_protect: self.write_protect,
        }
    }
}

impl Firmware {
    pub open spec fn wf(&self) -> bool {
        self@.wf()
    }

    /// Starts the firmware at `now_ms` and returns it with the bring-up
    /// steps for the controller, in order.
    pub fn power_on(config: DeviceConfig, now_ms: u64) -> (started: (Firmware, [InitStep; 5]))
        requires
            config.wf(),
            now_ms + HALF_PERIOD_MS <= u64::MAX,
        ensures
            started.0.wf(),
            started.0@ == SystemModel::powered_on(config@, now_ms),
            started.1@ == init_sequence(),
    {
        let mut driver = UsbDriver::new(&config);
        let steps = driver.initialize();
        let firmware = Firmware {
            config,
            driver,
            class: CdcAcm::new(),
            task: UsbTask::new(),
            led: LedTask::start(now_ms),
            write_protect: true,
        };
        (firmware, steps)
    }

    /// The level to drive the light pin to.
    pub fn led_level(&self) -> (level: bool)
        ensures
            level == self@.led.level,
    {
        self.led.level
    }

    /// The level to drive the write-protect pin to: always high.
    pub fn write_protect(&self) -> (level: bool)
        requires
            self.wf(),
        ensures
            level == self@.write_protect,
            level,
    {
        self.write_protect
    }

    /// The driver, for inspection.
    pub fn driver(&self) -> (driver: &UsbDriver)
        ensures
            driver@ == self@.driver,
    {
        &self.driver
    }

    /// The class state.
    pub fn class(&self) -> (class: CdcAcm)
        ensures
            class == self@.class,
    {
        self.class
    }

    /// The operation the serial task is suspended on.
    pub fn task_operation(&self) -> (op: Operation)
        ensures
            op == self@.task.operation(),
    {
        self.task.operation()
    }

    /// Takes the most urgent pending event from the driver, if there is
    /// one, and lets the class handle it.  Returns whether there was one.
    pub fn handle_next_event(&mut self) -> (handled: bool)
        requires
            old(self).wf(),
        ensures
            final(self).wf(),
            final(self)@ == old(self)@.after_event(),
            handled == old(self)@.driver.next_flag() is Some,
    {
        match self.driver.poll_event() {
            Some(event) => {
                proof {
                    lemma_event_keeps_sizes(
                        self.class,
                        self.driver@,
                        self.config@,
                        event_view(event),
                    );
                }
                let _ = self.class.handle_event(event, &mut self.driver, &self.config);
                true
            },
            None => false,
        }
    }

    /// Lets the serial task try the operation it is suspended on.
    /// Returns whether the operation completed.
    pub fn advance_task(&mut self) -> (moved: bool)
        requires
            old(self).wf(),
        ensures
            final(self).wf(),
            final(self)@ == old(self)@.after_task(),
            moved == old(self)@.task_ready(),
    {
        match self.task.operation() {
            Operation::WaitConnection => {
                if self.class.wait_for_connection() {
                    self.task.connected();
                    true
                } else {
                    false
                }
            },
            Operation::Write => {
                let data = self.task.outgoing();
                match self.class.write(data.as_slice(), &mut self.driver) {
                    Some(result) => {
                        self.task.written(result);
                        true
                    },
                    None => false,
                }
            },
            Operation::Read => {
                match self.class.read(&mut self.driver) {
                    Some(result) => {
                        self.task.received(result);
                        true
                    },
                    None => false,
                }
            },
        }
    }

    /// One service step: one event, then one try of the serial task.
    /// Returns whether anything got done.
    pub fn service_usb(&mut self) -> (progress: bool)
        requires
            old(self).wf(),
        ensures
            final(self).wf(),
            final(self)@ == old(self)@.serviced(),
            progress == old(self)@.service_progress(),
    {
        let handled = self.handle_next_event();
        let moved = self.advance_task();
        handled || moved
    }

    /// One wake cycle at `now_ms`: runs the serial task until it is
    /// blocked or has used up its budget, polls the light task, and says
    /// how long the processor may sleep.
    pub fn wake_cycle(&mut self, now_ms: u64) -> (sleep: Sleep)
        requires
            old(self).wf(),
            now_ms + HALF_PERIOD_MS <= u64::MAX,
        ensures
            final(self).wf(),
            final(self)@ == old(self)@.after_wake_cycle(now_ms),
            sleep == old(self)@.sleep_after(now_ms),
    {
        let mut left: u32 = SERVICE_BUDGET;
        let mut blocked = false;
        while left > 0 && !blocked
            invariant
                self.wf(),
                left <= SERVICE_BUDGET,
                old(self)@.run(SERVICE_BUDGET as nat) == if blocked {
                    (self@, true)
                } else {
                    self@.run(left as nat)
                },
            decreases left + if blocked { 0int } else { 1int },
        {
            let progress = self.service_usb();
            if progress {
                left -= 1;
            } else {
                blocked = true;
            }
        }
        let _ = self.led.poll(now_ms);
        if blocked {
            Sleep::UntilInterruptOr { deadline_ms: self.led.deadline_ms }
        } else {
            Sleep::RunAgain
        }
    }

    /// The host resets the bus.
    pub fn irq_reset(&mut self)
        requires
            old(self).wf(),
        ensures
            final(self).wf(),
            final(self)@ == (SystemModel { driver: old(self)@.driver.on_reset(), ..old(self)@ }),
    {
        self.driver.irq_reset();
    }

    /// The host sends a SETUP packet.
    pub fn irq_setup(&mut self, raw: [u8; 8])
        requires
            old(self).wf(),
        ensures
            final(self).wf(),
            final(self)@ == (SystemModel { driver: old(self)@.driver.on_setup(raw@), ..old(self)@ }),
    {
        self.driver.irq_setup(raw);
    }

    /// The host sends the data stage of a control write.
    pub fn irq_control_out(&mut self, data: &[u8]) -> (answer: Handshake)
        requires
            old(self).wf(),
        ensures
            final(self).wf(),
            final(self)@ == (SystemModel {
                driver: old(self)@.driver.on_control_out(data@),
                ..old(self)@
            }),
            answer == old(self)@.driver.control_out_handshake(data@),
    {
        self.driver.irq_control_out(data)
    }

    /// The host asks for the answer to a control request.
    pub fn irq_control_in(&mut self) -> (answer: (ControlAnswer, Vec<u8>))
        requires
            old(self).wf(),
        ensures
            final(self).wf(),
            final(self)@ == (SystemModel { driver: old(self)@.driver.on_control_in(), ..old(self)@ }),
            answer.0 == old(self)@.driver.control_answer(),
            answer.1@ == old(self)@.driver.control_answer_data(),
    {
        self.driver.irq_control_in()
    }

    /// The host sends a packet to the bulk-OUT endpoint.
    pub fn irq_bulk_out(&mut self, toggle: bool, data: &[u8]) -> (answer: Handshake)
        requires
            old(self).wf(),
        ensures
            final(self).wf(),
            final(self)@ == (SystemModel {
                driver: old(self)@.driver.on_bulk_out(toggle, data@),
                ..old(self)@
            }),
            answer == old(self)@.driver.bulk_out_handshake(data@),
    {
        self.driver.irq_bulk_out(toggle, data)
    }

    /// The host asks the bulk-IN endpoint for a packet.
    pub fn irq_bulk_in(&mut self) -> (packet: Option<Vec<u8>>)
        requires
            old(self).wf(),
        ensures
            final(self).wf(),
            final(self)@ == (SystemModel { driver: old(self)@.driver.on_bulk_in(), ..old(self)@ }),
            option_view(packet) == old(self)@.driver.bulk_in_packet(),
    {
        self.driver.irq_bulk_in()
    }

    /// The bus goes idle.
    pub fn irq_suspend(&mut self)
        requires
            old(self).wf(),
        ensures
            final(self).wf(),
            final(self)@ == (SystemModel {
                driver: old(self)@.driver.on_power(Flag::Suspend),
                ..old(self)@
            }),
    {
        self.driver.irq_suspend();
    }

    /// The bus becomes active again.
    pub fn irq_wake(&mut self)
        requires
            old(self).wf(),
        ensures
            final(self).wf(),
            final(self)@ == (SystemModel {
                driver: old(self)@.driver.on_power(Flag::Wake),
                ..old(self)@
            }),
    {
        self.driver.irq_wake();
    }
}

} // verus!
