//! Serial line parameters and control-line state of the virtual port.
//!
//! A line-coding payload is seven bytes: the data rate as a little-endian
//! 32-bit number, then one byte each for stop bits, parity and data bits.

use vstd::prelude::*;

verus! {

/// Length in bytes of a line-coding payload.
pub const LINE_CODING_LEN: usize = 7;

/// Number of stop bits, as carried in byte 4 of a line-coding payload.
#[derive(Clone, Copy, Debug, PartialEq, Eq, Structural)]
pub enum StopBits {
    One,
    OnePointFive,
    Two,
}

impl StopBits {
    /// The wire code of a stop-bit setting.
    pub open spec fn spec_code(self) -> u8 {
        match self {
            StopBits::One => 0,
            StopBits::OnePointFive => 1,
            StopBits::Two => 2,
        }
    }

    /// The setting for a wire code; codes above 2 fall back to one stop bit.
    pub open spec fn spec_from_code(code: u8) -> StopBits {
        if code == 1 {
            StopBits::OnePointFive
        } else if code == 2 {
            StopBits::Two
        } else {
            StopBits::One
        }
    }

    pub fn code(&self) -> (c: u8)
        ensures
            c == self.spec_code(),
    {
        match self {
            StopBits::One => 0,
            StopBits::OnePointFive => 1,
            StopBits::Two => 2,
        }
    }

    pub fn from_code(code: u8) -> (s: StopBits)
        ensures
            s == Self::spec_from_code(code),
    {
        if code == 1 {
            StopBits::OnePointFive
        } else if code == 2 {
            StopBits::Two
        } else {
            StopBits::One
        }
    }
}

/// Parity setting, as carried in byte 5 of a line-coding payload.
#[derive(Clone, Copy, Debug, PartialEq, Eq, Structural)]
pub enum Parity {
    NoParity,
    Odd,
    Even,
    Mark,
    Space,
}

impl Parity {
    /// The wire code of a parity setting.
    pub open spec fn spec_code(self) -> u8 {
        match self {
            Parity::NoParity => 0,
            Parity::Odd => 1,
            Parity::Even => 2,
            Parity::Mark => 3,
            Parity::Space => 4,
        }
    }

    /// The setting for a wire code; codes above 4 fall back to no parity.
    pub open spec fn spec_from_code(code: u8) -> Parity {
        if code == 1 {
            Parity::Odd
        } else if code == 2 {
            Parity::Even
        } else if code == 3 {
            Parity::Mark
        } else if code == 4 {
            Parity::Space
        } else {
            Parity::NoParity
        }
    }

    pub fn code(&self) -> (c: u8)
        ensures
            c == self.spec_code(),
    {
        match self {
            Parity::NoParity => 0,
            Parity::Odd => 1,
            Parity::Even => 2,
            Parity::Mark => 3,
            Parity::Space => 4,
        }
    }

    pub fn from_code(code: u8) -> (p: Parity)
        ensures
            p == Self::spec_from_code(code),
    {
        if code == 1 {
            Parity::Odd
        } else if code == 2 {
            Parity::Even
        } else if code == 3 {
            Parity::Mark
        } else if code == 4 {
            Parity::Space
        } else {
            Parity::NoParity
        }
    }
}

/// The number whose little-endian bytes are `b0, b1, b2, b3`.
pub open spec fn le32(b0: u8, b1: u8, b2: u8, b3: u8) -> u32 {
    (b0 + 256 * b1 + 65536 * b2 + 16777216 * b3) as u32
}

/// Byte `i` (0 is the least significant) of `x`.
pub open spec fn le_byte(x: u32, i: int) -> u8 {
    if i == 0 {
        (x % 256) as u8
    } else if i == 1 {
        ((x / 256) % 256) as u8
    } else if i == 2 {
        ((x / 65536) % 256) as u8
    } else {
        ((x / 16777216) % 256) as u8
    }
}

/// Splitting a number into its four bytes and joining them gives it back.
pub proof fn lemma_le32_of_bytes(x: u32)
    ensures
        le32(le_byte(x, 0), le_byte(x, 1), le_byte(x, 2), le_byte(x, 3)) == x,
{
}

/// Joining four bytes and splitting the number gives the bytes back.
pub proof fn lemma_bytes_of_le32(b0: u8, b1: u8, b2: u8, b3: u8)
    ensures
        le_byte(le32(b0, b1, b2, b3), 0) == b0,
        le_byte(le32(b0, b1, b2, b3), 1) == b1,
        le_byte(le32(b0, b1, b2, b3), 2) == b2,
        le_byte(le32(b0, b1, b2, b3), 3) == b3,
{
}

/// UART parameters requested by the host.
#[derive(Clone, Copy, Debug, PartialEq, Eq, Structural)]
pub struct LineCoding {
    /// Data rate in bits per second.
    pub data_rate: u32,
    pub stop_bits: StopBits,
    pub parity: Parity,
    /// Number of data bits per character.
    pub data_bits: u8,
}

/// A payload that a line coding can be read from without loss: seven bytes,
/// with a stop-bit code of at most 2 and a parity code of at most 4.
pub open spec fn well_formed_payload(p: Seq<u8>) -> bool {
    &&& p.len() == LINE_CODING_LEN
    &&& p[4] <= 2
    &&& p[5] <= 4
}

impl LineCoding {
    /// The coding in force before the host sets one: 8000 bit/s, 8 data
    /// bits, no parity, one stop bit.
    pub open spec fn initial() -> LineCoding {
        LineCoding {
            data_rate: 8000,
            stop_bits: StopBits::One,
            parity: Parity::NoParity,
            data_bits: 8,
        }
    }

    /// The coding that a payload of seven bytes carries; none for any other
    /// length.
    pub open spec fn spec_decode(p: Seq<u8>) -> Option<LineCoding> {
        if p.len() == LINE_CODING_LEN {
            Some(
                LineCoding {
                    data_rate: le32(p[0], p[1], p[2], p[3]),
                    stop_bits: StopBits::spec_from_code(p[4]),
                    parity: Parity::spec_from_code(p[5]),
                    data_bits: p[6],
                },
            )
        } else {
            None
        }
    }

    /// The seven payload bytes of a coding.
    pub open spec fn spec_encode(self) -> Seq<u8> {
        seq![
            le_byte(self.data_rate, 0),
            le_byte(self.data_rate, 1),
            le_byte(self.data_rate, 2),
            le_byte(self.data_rate, 3),
            self.stop_bits.spec_code(),
            self.parity.spec_code(),
            self.data_bits,
        ]
    }

    /// Reads a coding from the data stage of a SET_LINE_CODING request.
    pub fn decode(payload: &[u8]) -> (r: Option<LineCoding>)
        ensures
            r == Self::spec_decode(payload@),
    {
        if payload.len() != LINE_CODING_LEN {
            return None;
        }
        let b0: u32 = payload[0] as u32;
        let b1: u32 = payload[1] as u32;
        let b2: u32 = payload[2] as u32;
        let b3: u32 = payload[3] as u32;
        Some(
            LineCoding {
                data_rate: b0 + 256 * b1 + 65536 * b2 + 16777216 * b3,
                stop_bits: StopBits::from_code(payload[4]),
                parity: Parity::from_code(payload[5]),
                data_bits: payload[6],
            },
        )
    }

    /// Writes the coding as the reply to a GET_LINE_CODING request.
    pub fn encode(&self) -> (out: [u8; 7])
        ensures
            out@ == self.spec_encode(),
    {
        let rate: u32 = self.data_rate;
        let out: [u8; 7] = [
            (rate % 256) as u8,
            ((rate / 256) % 256) as u8,
            ((rate / 65536) % 256) as u8,
            ((rate / 16777216) % 256) as u8,
            self.stop_bits.code(),
            self.parity.code(),
            self.data_bits,
        ];
        assert(out@ =~= self.spec_encode());
        out
    }
}

impl Default for LineCoding {
    fn default() -> (c: LineCoding)
        ensures
            c == LineCoding::initial(),
    {
        LineCoding {
            data_rate: 8000,
            stop_bits: StopBits::One,
            parity: Parity::NoParity,
            data_bits: 8,
        }
    }
}

/// Every coding survives being written and read back.
pub proof fn lemma_decode_of_encode(c: LineCoding)
    ensures
        LineCoding::spec_decode(c.spec_encode()) == Some(c),
{
    lemma_le32_of_bytes(c.data_rate);
}

/// A well-formed payload survives being read and written back, byte for
/// byte.
pub proof fn lemma_encode_of_decode(p: Seq<u8>)
    requires
        well_formed_payload(p),
    ensures
        LineCoding::spec_decode(p) is Some,
        LineCoding::spec_decode(p)->0.spec_encode() == p,
{
    lemma_bytes_of_le32(p[0], p[1], p[2], p[3]);
    assert(LineCoding::spec_decode(p)->0.spec_encode() =~= p);
}

/// What the host has set on the virtual port.
#[derive(Clone, Copy, Debug, PartialEq, Eq, Structural)]
pub struct LineState {
    pub coding: LineCoding,
    /// Data Terminal Ready: the host has opened the port.
    pub dtr: bool,
    /// Request To Send.
    pub rts: bool,
}

/// Bit 0 of the value of a SET_CONTROL_LINE_STATE request.
pub open spec fn dtr_bit(value: u16) -> bool {
    value % 2 == 1
}

/// Bit 1 of the value of a SET_CONTROL_LINE_STATE request.
pub open spec fn rts_bit(value: u16) -> bool {
    (value / 2) % 2 == 1
}

impl LineState {
    /// The state after power-on and after every bus reset.
    pub open spec fn initial() -> LineState {
        LineState { coding: LineCoding::initial(), dtr: false, rts: false }
    }

    /// The state after the host has set the control lines to `value`.
    pub open spec fn with_control_lines(self, value: u16) -> LineState {
        LineState { dtr: dtr_bit(value), rts: rts_bit(value), ..self }
    }

    /// The state after the host has set the line coding to `coding`.
    pub open spec fn with_coding(self, coding: LineCoding) -> LineState {
        LineState { coding, ..self }
    }

    /// Whether setting the control lines to `value` asserts DTR that was
    /// not asserted before.
    pub open spec fn dtr_rises(self, value: u16) -> bool {
        !self.dtr && dtr_bit(value)
    }

    pub fn new() -> (s: LineState)
        ensures
            s == LineState::initial(),
    {
        LineState { coding: LineCoding::default(), dtr: false, rts: false }
    }

    /// Applies a SET_CONTROL_LINE_STATE value and reports whether DTR rose.
    pub fn set_control_lines(&mut self, value: u16) -> (rose: bool)
        ensures
            *final(self) == old(self).with_control_lines(value),
            rose == old(self).dtr_rises(value),
    {
        let dtr = value % 2 == 1;
        let rts = (value / 2) % 2 == 1;
        let rose = !self.dtr && dtr;
        self.dtr = dtr;
        self.rts = rts;
        rose
    }

    /// Applies a decoded SET_LINE_CODING payload.
    pub fn set_coding(&mut self, coding: LineCoding)
        ensures
            *final(self) == old(self).with_coding(coding),
    {
        self.coding = coding;
    }
}

} // verus!
