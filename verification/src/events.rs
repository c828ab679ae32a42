//! The flags through which the interrupt handler tells the task side what
//! has happened on the bus.
//!
//! The handler only ever sets a flag.  The task side takes one flag at a
//! time, the most urgent first, and clears exactly that one.

use crate::setup::Direction;
use vstd::prelude::*;

verus! {

/// One thing the interrupt handler can report.
#[derive(Clone, Copy, Debug, PartialEq, Eq, Structural)]
pub enum Flag {
    /// The host has reset the bus.
    Reset,
    /// A SETUP packet has arrived.
    Setup,
    /// The data stage of a control write has arrived.
    ControlOut,
    /// The host has taken the answer to a control request.
    ControlIn,
    /// A packet has arrived on the bulk-OUT endpoint.
    BulkOut,
    /// The host has taken the packet of the bulk-IN endpoint.
    BulkIn,
    /// The bus has gone idle.
    Suspend,
    /// The bus is active again.
    Wake,
}

impl Flag {
    /// The urgency of a flag: the lower, the sooner it is reported.  A
    /// reset comes before a SETUP packet, that before the completions of
    /// endpoints, and those before the power events.
    pub open spec fn rank(self) -> nat {
        match self {
            Flag::Reset => 0,
            Flag::Setup => 1,
            Flag::ControlOut => 2,
            Flag::ControlIn => 3,
            Flag::BulkOut => 4,
            Flag::BulkIn => 5,
            Flag::Suspend => 6,
            Flag::Wake => 7,
        }
    }
}

/// What the task side learns from one poll of the driver.
#[derive(Clone, Copy, Debug, PartialEq, Eq)]
pub enum Event {
    /// The bus was reset.
    Reset,
    /// A SETUP packet arrived; `raw` holds its eight bytes.
    Setup { raw: [u8; 8] },
    /// A transfer on an endpoint is complete.
    EndpointComplete { endpoint: u8, direction: Direction },
    /// The bus was suspended.
    Suspend,
    /// The bus was woken.
    Wake,
}

/// The set of pending flags.
#[derive(Clone, Copy, Debug, PartialEq, Eq, Structural)]
pub struct EventFlags {
    pub reset: bool,
    pub setup: bool,
    pub control_out: bool,
    pub control_in: bool,
    pub bulk_out: bool,
    pub bulk_in: bool,
    pub suspend: bool,
    pub wake: bool,
}

impl EventFlags {
    /// No flag is pending.
    pub open spec fn none() -> EventFlags {
        EventFlags {
            reset: false,
            setup: false,
            control_out: false,
            control_in: false,
            bulk_out: false,
            bulk_in: false,
            suspend: false,
            wake: false,
        }
    }

    /// Whether `flag` is pending.
    pub open spec fn is_set(self, flag: Flag) -> bool {
        match flag {
            Flag::Reset => self.reset,
            Flag::Setup => self.setup,
            Flag::ControlOut => self.control_out,
            Flag::ControlIn => self.control_in,
            Flag::BulkOut => self.bulk_out,
            Flag::BulkIn => self.bulk_in,
            Flag::Suspend => self.suspend,
            Flag::Wake => self.wake,
        }
    }

    /// The flags with `flag` set to `on` and all others as they were.
    pub open spec fn with(self, flag: Flag, on: bool) -> EventFlags {
        match flag {
            Flag::Reset => EventFlags { reset: on, ..self },
            Flag::Setup => EventFlags { setup: on, ..self },
            Flag::ControlOut => EventFlags { control_out: on, ..self },
            Flag::ControlIn => EventFlags { control_in: on, ..self },
            Flag::BulkOut => EventFlags { bulk_out: on, ..self },
            Flag::BulkIn => EventFlags { bulk_in: on, ..self },
            Flag::Suspend => EventFlags { suspend: on, ..self },
            Flag::Wake => EventFlags { wake: on, ..self },
        }
    }

    /// Whether any flag is pending.
    pub open spec fn any(self) -> bool {
        exists|flag: Flag| self.is_set(flag)
    }

    /// Whether `flag` is the pending flag of least rank.
    pub open spec fn is_most_urgent(self, flag: Flag) -> bool {
        &&& self.is_set(flag)
        &&& forall|other: Flag| self.is_set(other) ==> flag.rank() <= other.rank()
    }

    /// The pending flag that is reported next.
    pub open spec fn most_urgent(self) -> Option<Flag> {
        if self.reset {
            Some(Flag::Reset)
        } else if self.setup {
            Some(Flag::Setup)
        } else if self.control_out {
            Some(Flag::ControlOut)
        } else if self.control_in {
            Some(Flag::ControlIn)
        } else if self.bulk_out {
            Some(Flag::BulkOut)
        } else if self.bulk_in {
            Some(Flag::BulkIn)
        } else if self.suspend {
            Some(Flag::Suspend)
        } else if self.wake {
            Some(Flag::Wake)
        } else {
            None
        }
    }

    /// The flags after the next one was taken.
    pub open spec fn after_take(self) -> EventFlags {
        match self.most_urgent() {
            Some(flag) => self.with(flag, false),
            None => self,
        }
    }

    pub fn new() -> (flags: EventFlags)
        ensures
            flags == EventFlags::none(),
    {
        EventFlags {
            reset: false,
            setup: false,
            control_out: false,
            control_in: false,
            bulk_out: false,
            bulk_in: false,
            suspend: false,
            wake: false,
        }
    }

    pub fn get(&self, flag: Flag) -> (on: bool)
        ensures
            on == self.is_set(flag),
    {
        match flag {
            Flag::Reset => self.reset,
            Flag::Setup => self.setup,
            Flag::ControlOut => self.control_out,
            Flag::ControlIn => self.control_in,
            Flag::BulkOut => self.bulk_out,
            Flag::BulkIn => self.bulk_in,
            Flag::Suspend => self.suspend,
            Flag::Wake => self.wake,
        }
    }

    /// Interrupt side: marks `flag` as pending.  No other flag changes.
    pub fn raise(&mut self, flag: Flag)
        ensures
            *final(self) == old(self).with(flag, true),
    {
        match flag {
            Flag::Reset => {
                self.reset = true;
            },
            Flag::Setup => {
                self.setup = true;
            },
            Flag::ControlOut => {
                self.control_out = true;
            },
            Flag::ControlIn => {
                self.control_in = true;
            },
            Flag::BulkOut => {
                self.bulk_out = true;
            },
            Flag::BulkIn => {
                self.bulk_in = true;
            },
            Flag::Suspend => {
                self.suspend = true;
            },
            Flag::Wake => {
                self.wake = true;
            },
        }
    }

    /// Whether any flag is pending.
    pub fn pending(&self) -> (b: bool)
        ensures
            b == self.any(),
            b == self.most_urgent() is Some,
    {
        proof {
            lemma_most_urgent(*self);
        }
        self.reset || self.setup || self.control_out || self.control_in || self.bulk_out
            || self.bulk_in || self.suspend || self.wake
    }

    /// Task side: takes the most urgent pending flag and clears it.  No
    /// other flag changes.
    pub fn take(&mut self) -> (taken: Option<Flag>)
        ensures
            taken == old(self).most_urgent(),
            *final(self) == old(self).after_take(),
            taken matches Some(flag) ==> old(self).is_most_urgent(flag),
            taken is None ==> !old(self).any(),
    {
        proof {
            lemma_most_urgent(*self);
        }
        if self.reset {
            self.reset = false;
            Some(Flag::Reset)
        } else if self.setup {
            self.setup = false;
            Some(Flag::Setup)
        } else if self.control_out {
            self.control_out = false;
            Some(Flag::ControlOut)
        } else if self.control_in {
            self.control_in = false;
            Some(Flag::ControlIn)
        } else if self.bulk_out {
            self.bulk_out = false;
            Some(Flag::BulkOut)
        } else if self.bulk_in {
            self.bulk_in = false;
            Some(Flag::BulkIn)
        } else if self.suspend {
            self.suspend = false;
            Some(Flag::Suspend)
        } else if self.wake {
            self.wake = false;
            Some(Flag::Wake)
        } else {
            None
        }
    }
}

/// The flag that is reported next is the pending flag of least rank, and
/// none is reported only when none is pending.
pub proof fn lemma_most_urgent(flags: EventFlags)
    ensures
        flags.most_urgent() matches Some(flag) ==> flags.is_most_urgent(flag),
        flags.most_urgent() is None <==> !flags.any(),
        forall|flag: Flag| flags.is_most_urgent(flag) ==> flags.most_urgent() == Some(flag),
{
    if flags.most_urgent() is Some {
        assert(flags.is_set(flags.most_urgent()->0));
    }
    assert forall|flag: Flag| flags.is_most_urgent(flag) implies flags.most_urgent() == Some(
        flag,
    ) by {
        let first = flags.most_urgent()->0;
        assert(flags.is_set(first));
        assert(flag.rank() <= first.rank());
    }
}

/// Taking a flag clears that flag and no other, and raising a flag sets
/// that flag and no other: no report is lost.
pub proof fn lemma_flags_independent(flags: EventFlags, flag: Flag, other: Flag, on: bool)
    requires
        flag != other,
    ensures
        flags.with(flag, on).is_set(flag) == on,
        flags.with(flag, on).is_set(other) == flags.is_set(other),
{
}

} // verus!
