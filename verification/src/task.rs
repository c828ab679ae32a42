//! The two cooperative tasks, each as a state machine over its suspension
//! points.
//!
//! A task never blocks.  It names the operation it is suspended on; whoever
//! drives it performs that operation and hands the outcome back.

use crate::error::UsbError;
use vstd::prelude::*;

verus! {

/// Length in bytes of the greeting.
pub const GREETING_LEN: usize = 44;

/// The message sent once after every connection:
/// `HDMI Dummy Display Switch - USB CDC Ready!` followed by CR and LF.
pub open spec fn greeting() -> Seq<u8> {
    seq![
        'H' as u8, 'D' as u8, 'M' as u8, 'I' as u8, ' ' as u8, 'D' as u8,
        'u' as u8, 'm' as u8, 'm' as u8, 'y' as u8, ' ' as u8, 'D' as u8,
        'i' as u8, 's' as u8, 'p' as u8, 'l' as u8, 'a' as u8, 'y' as u8,
        ' ' as u8, 'S' as u8, 'w' as u8, 'i' as u8, 't' as u8, 'c' as u8,
        'h' as u8, ' ' as u8, '-' as u8, ' ' as u8, 'U' as u8, 'S' as u8,
        'B' as u8, ' ' as u8, 'C' as u8, 'D' as u8, 'C' as u8, ' ' as u8,
        'R' as u8, 'e' as u8, 'a' as u8, 'd' as u8, 'y' as u8, '!' as u8,
        '\r' as u8, '\n' as u8,
    ]
}

/// The greeting as bytes to send.
pub fn greeting_bytes() -> (out: Vec<u8>)
    ensures
        out@ == greeting(),
{
    let text: [u8; 44] = [
        'H' as u8, 'D' as u8, 'M' as u8, 'I' as u8, ' ' as u8, 'D' as u8,
        'u' as u8, 'm' as u8, 'm' as u8, 'y' as u8, ' ' as u8, 'D' as u8,
        'i' as u8, 's' as u8, 'p' as u8, 'l' as u8, 'a' as u8, 'y' as u8,
        ' ' as u8, 'S' as u8, 'w' as u8, 'i' as u8, 't' as u8, 'c' as u8,
        'h' as u8, ' ' as u8, '-' as u8, ' ' as u8, 'U' as u8, 'S' as u8,
        'B' as u8, ' ' as u8, 'C' as u8, 'D' as u8, 'C' as u8, ' ' as u8,
        'R' as u8, 'e' as u8, 'a' as u8, 'd' as u8, 'y' as u8, '!' as u8,
        '\r' as u8, '\n' as u8,
    ];
    let out = vstd::slice::slice_to_vec(text.as_slice());
    assert(out@ =~= greeting());
    out
}

/// The operation a serial task is suspended on.
#[derive(Clone, Copy, Debug, PartialEq, Eq, Structural)]
pub enum Operation {
    /// Waiting for the host to open the port.
    WaitConnection,
    /// Waiting for a packet to go out on the bulk-IN endpoint.
    Write,
    /// Waiting for a packet to come in on the bulk-OUT endpoint.
    Read,
}

/// Where the serial task stands in its loop.
pub enum TaskModel {
    /// Before the host has opened the port.
    AwaitingConnection,
    /// Connected; the greeting has yet to go out.
    SendingGreeting,
    /// Waiting for the next packet from the host.
    Reading,
    /// A packet was read and has yet to go back out.
    Echoing(Seq<u8>),
}

impl TaskModel {
    /// The operation the task is suspended on.
    pub open spec fn operation(self) -> Operation {
        match self {
            TaskModel::AwaitingConnection => Operation::WaitConnection,
            TaskModel::SendingGreeting => Operation::Write,
            TaskModel::Reading => Operation::Read,
            TaskModel::Echoing(_) => Operation::Write,
        }
    }

    /// The bytes that the pending write sends; empty while no write is
    /// pending.
    pub open spec fn outgoing(self) -> Seq<u8> {
        match self {
            TaskModel::SendingGreeting => greeting(),
            TaskModel::Echoing(packet) => packet,
            _ => Seq::empty(),
        }
    }

    /// The task after the host has opened the port.
    pub open spec fn connected(self) -> TaskModel {
        match self {
            TaskModel::AwaitingConnection => TaskModel::SendingGreeting,
            _ => self,
        }
    }

    /// The task after its write has ended with `result`.
    pub open spec fn written(self, result: Result<(), UsbError>) -> TaskModel {
        match self {
            TaskModel::SendingGreeting | TaskModel::Echoing(_) => match result {
                Ok(_) => TaskModel::Reading,
                Err(_) => TaskModel::AwaitingConnection,
            },
            _ => self,
        }
    }

    /// The task after its read has ended with `result`.
    pub open spec fn received(self, result: Result<Seq<u8>, UsbError>) -> TaskModel {
        match self {
            TaskModel::Reading => match result {
                Ok(packet) => TaskModel::Echoing(packet),
                Err(_) => TaskModel::AwaitingConnection,
            },
            _ => self,
        }
    }
}

/// The view of a read result: the packet by its bytes.
pub open spec fn received_view(result: Result<Vec<u8>, UsbError>) -> Result<Seq<u8>, UsbError> {
    match result {
        Ok(packet) => Ok(packet@),
        Err(e) => Err(e),
    }
}

#[derive(Clone, Copy, Debug, PartialEq, Eq, Structural)]
enum Phase {
    AwaitingConnection,
    SendingGreeting,
    Reading,
    Echoing,
}

/// The serial task: wait for a connection, send the greeting, then echo
/// every packet until an operation fails, and start over.
pub struct UsbTask {
    phase: Phase,
    packet: Vec<u8>,
}

impl View for UsbTask {
    type V = TaskModel;

    closed spec fn view(&self) -> TaskModel {
        match self.phase {
            Phase::AwaitingConnection => TaskModel::AwaitingConnection,
            Phase::SendingGreeting => TaskModel::SendingGreeting,
            Phase::Reading => TaskModel::Reading,
            Phase::Echoing => TaskModel::Echoing(self.packet@),
        }
    }
}

impl UsbTask {
    /// A task at the top of its loop.
    pub fn new() -> (task: UsbTask)
        ensures
            task@ == TaskModel::AwaitingConnection,
    {
        UsbTask { phase: Phase::AwaitingConnection, packet: Vec::new() }
    }

    /// The operation the task is suspended on.
    pub fn operation(&self) -> (op: Operation)
        ensures
            op == self@.operation(),
    {
        match self.phase {
            Phase::AwaitingConnection => Operation::WaitConnection,
            Phase::SendingGreeting => Operation::Write,
            Phase::Reading => Operation::Read,
            Phase::Echoing => Operation::Write,
        }
    }

    /// The bytes of the pending write.
    pub fn outgoing(&self) -> (out: Vec<u8>)
        ensures
            out@ == self@.outgoing(),
    {
        match self.phase {
            Phase::SendingGreeting => greeting_bytes(),
            Phase::Echoing => self.packet.clone(),
            _ => Vec::new(),
        }
    }

    /// Reports that the host has opened the port.
    pub fn connected(&mut self)
        ensures
            final(self)@ == old(self)@.connected(),
    {
        if self.phase == Phase::AwaitingConnection {
            self.phase = Phase::SendingGreeting;
        }
    }

    /// Reports how the pending write ended.
    pub fn written(&mut self, result: Result<(), UsbError>)
        ensures
            final(self)@ == old(self)@.written(result),
    {
        if self.phase == Phase::SendingGreeting || self.phase == Phase::Echoing {
            self.packet = Vec::new();
            match result {
                Ok(_) => {
                    self.phase = Phase::Reading;
                },
                Err(_) => {
                    self.phase = Phase::AwaitingConnection;
                },
            }
        }
    }

    /// Reports how the pending read ended.
    pub fn received(&mut self, result: Result<Vec<u8>, UsbError>)
        ensures
            final(self)@ == old(self)@.received(received_view(result)),
    {
        if self.phase == Phase::Reading {
            match result {
                Ok(packet) => {
                    self.packet = packet;
                    self.phase = Phase::Echoing;
                },
                Err(_) => {
                    self.phase = Phase::AwaitingConnection;
                },
            }
        }
    }
}

/// Time the light stays in one state, in milliseconds.
pub const HALF_PERIOD_MS: u64 = 500;

/// The status-light task: high for half a period, low for half a period,
/// for ever.
#[derive(Clone, Copy, Debug, PartialEq, Eq, Structural)]
pub struct LedTask {
    /// The level the pin is driven to.
    pub level: bool,
    /// The time at which the level changes next.
    pub deadline_ms: u64,
}

impl LedTask {
    /// The task that starts at `now_ms`: the light is on until half a
    /// period has passed.
    pub open spec fn started(now_ms: u64) -> LedTask
        recommends
            now_ms + HALF_PERIOD_MS <= u64::MAX,
    {
        LedTask { level: true, deadline_ms: (now_ms + HALF_PERIOD_MS) as u64 }
    }

    /// Whether the task is ready to run at `now_ms`.
    pub open spec fn is_due(self, now_ms: u64) -> bool {
        now_ms >= self.deadline_ms
    }

    /// The task after it was polled at `now_ms`: once the deadline is
    /// reached the level flips and the next change is half a period away.
    pub open spec fn polled(self, now_ms: u64) -> LedTask
        recommends
            now_ms + HALF_PERIOD_MS <= u64::MAX,
    {
        if self.is_due(now_ms) {
            LedTask { level: !self.level, deadline_ms: (now_ms + HALF_PERIOD_MS) as u64 }
        } else {
            self
        }
    }

    pub fn start(now_ms: u64) -> (task: LedTask)
        requires
            now_ms + HALF_PERIOD_MS <= u64::MAX,
        ensures
            task == LedTask::started(now_ms),
    {
        LedTask { level: true, deadline_ms: now_ms + HALF_PERIOD_MS }
    }

    pub fn due(&self, now_ms: u64) -> (b: bool)
        ensures
            b == self.is_due(now_ms),
    {
        now_ms >= self.deadline_ms
    }

    /// Runs the task up to its next suspension point and returns the level
    /// to drive the pin to, if it changed.
    pub fn poll(&mut self, now_ms: u64) -> (change: Option<bool>)
        requires
            now_ms + HALF_PERIOD_MS <= u64::MAX,
        ensures
            *final(self) == old(self).polled(now_ms),
            change == if old(self).is_due(now_ms) {
                Some(!old(self).level)
            } else {
                None
            },
    {
        if now_ms >= self.deadline_ms {
            self.level = !self.level;
            self.deadline_ms = now_ms + HALF_PERIOD_MS;
            Some(self.level)
        } else {
            None
        }
    }
}

/// Polled exactly at its deadlines the light changes every half period:
/// a full cycle takes one second and ends at the level it began with.
pub proof fn lemma_led_period(task: LedTask)
    requires
        task.deadline_ms + 2 * HALF_PERIOD_MS <= u64::MAX,
    ensures
        task.polled(task.deadline_ms).level == !task.level,
        task.polled(task.deadline_ms).deadline_ms == task.deadline_ms + HALF_PERIOD_MS,
        task.polled(task.deadline_ms).polled((task.deadline_ms + HALF_PERIOD_MS) as u64).level
            == task.level,
        task.polled(task.deadline_ms).polled(
            (task.deadline_ms + HALF_PERIOD_MS) as u64,
        ).deadline_ms == task.deadline_ms + 2 * HALF_PERIOD_MS,
{
}

/// Polled before its deadline the light does not change.
pub proof fn lemma_led_holds(task: LedTask, now_ms: u64)
    requires
        now_ms < task.deadline_ms,
    ensures
        task.polled(now_ms) == task,
{
}

} // verus!
