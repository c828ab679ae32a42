//! The descriptors that present the device to the host: one CDC-ACM
//! function made of a communications interface and a data interface with
//! one bulk endpoint in each direction.
//!
//! Every descriptor is a pure function of the device configuration.

use crate::bytes::option_view;
use crate::setup::{COMM_INTERFACE, DATA_INTERFACE};
use vstd::prelude::*;

verus! {

/// Descriptor type codes, as they appear in `wValue` of GET_DESCRIPTOR.
pub const DESCRIPTOR_DEVICE: u8 = 1;

pub const DESCRIPTOR_CONFIGURATION: u8 = 2;

pub const DESCRIPTOR_STRING: u8 = 3;

pub const DESCRIPTOR_INTERFACE: u8 = 4;

pub const DESCRIPTOR_ENDPOINT: u8 = 5;

pub const DESCRIPTOR_BOS: u8 = 15;

/// Type code of the class-specific interface descriptors.
pub const DESCRIPTOR_CS_INTERFACE: u8 = 0x24;

/// Class code of a communications device and of its control interface.
pub const CLASS_CDC: u8 = 0x02;

/// Subclass code of the abstract control model.
pub const SUBCLASS_ACM: u8 = 0x02;

/// Protocol code: no class-specific protocol.
pub const PROTOCOL_NONE: u8 = 0x00;

/// Class code of the data interface.
pub const CLASS_CDC_DATA: u8 = 0x0A;

/// Address of the bulk endpoint that takes packets from the host.
pub const BULK_OUT_ADDRESS: u8 = 0x01;

/// Address of the bulk endpoint that sends packets to the host.
pub const BULK_IN_ADDRESS: u8 = 0x81;

/// Length of the device descriptor.
pub const DEVICE_DESCRIPTOR_LEN: usize = 18;

/// Length of the configuration descriptor with all that it contains.
pub const CONFIGURATION_DESCRIPTOR_LEN: usize = 55;

/// Most characters a descriptor string can hold.
pub const MAX_STRING_LEN: usize = 126;

/// Most current, in milliamperes, that a device may ask for.
pub const MAX_POWER_MA: u16 = 500;

/// The packet sizes a full-speed control or bulk endpoint may have.
pub open spec fn valid_packet_size(size: int) -> bool {
    size == 8 || size == 16 || size == 32 || size == 64
}

/// A string that fits a string descriptor: ASCII, at most 126 characters.
pub open spec fn valid_text(text: Seq<u8>) -> bool {
    &&& text.len() <= MAX_STRING_LEN
    &&& forall|i: int| 0 <= i < text.len() ==> text[i] < 128
}

pub open spec fn valid_entry(entry: Option<Seq<u8>>) -> bool {
    entry matches Some(text) ==> valid_text(text)
}

/// The values the descriptors are built from.
pub struct ConfigModel {
    pub vendor_id: u16,
    pub product_id: u16,
    pub manufacturer: Option<Seq<u8>>,
    pub product: Option<Seq<u8>>,
    pub serial_number: Option<Seq<u8>>,
    pub max_packet_size_0: u8,
    pub bulk_packet_size: u16,
    pub max_power_ma: u16,
}

impl ConfigModel {
    pub open spec fn valid(self) -> bool {
        &&& valid_packet_size(self.max_packet_size_0 as int)
        &&& valid_packet_size(self.bulk_packet_size as int)
        &&& self.max_power_ma <= MAX_POWER_MA
        &&& valid_entry(self.manufacturer)
        &&& valid_entry(self.product)
        &&& valid_entry(self.serial_number)
    }

    /// Index of the manufacturer string, 0 if there is none.
    pub open spec fn manufacturer_index(self) -> u8 {
        if self.manufacturer is Some {
            1
        } else {
            0
        }
    }

    /// Index of the product string, 0 if there is none.
    pub open spec fn product_index(self) -> u8 {
        if self.product is Some {
            2
        } else {
            0
        }
    }

    /// Index of the serial-number string, 0 if there is none.
    pub open spec fn serial_number_index(self) -> u8 {
        if self.serial_number is Some {
            3
        } else {
            0
        }
    }

    /// The text of string `index`, for the indices 1 to 3.
    pub open spec fn text(self, index: u8) -> Option<Seq<u8>> {
        if index == 1 {
            self.manufacturer
        } else if index == 2 {
            self.product
        } else if index == 3 {
            self.serial_number
        } else {
            None
        }
    }

    /// The device descriptor: USB 2.1, a communications device, one
    /// configuration.
    pub open spec fn device_descriptor(self) -> Seq<u8> {
        seq![
            18u8,
            DESCRIPTOR_DEVICE,
            0x10,
            0x02,
            CLASS_CDC,
            SUBCLASS_ACM,
            PROTOCOL_NONE,
            self.max_packet_size_0,
            (self.vendor_id % 256) as u8,
            (self.vendor_id / 256) as u8,
            (self.product_id % 256) as u8,
            (self.product_id / 256) as u8,
            0x10,
            0x00,
            self.manufacturer_index(),
            self.product_index(),
            self.serial_number_index(),
            1,
        ]
    }

    /// Head of the configuration descriptor: total length 55, two
    /// interfaces, bus powered, current in units of 2 mA.
    pub open spec fn configuration_header(self) -> Seq<u8> {
        seq![
            9u8,
            DESCRIPTOR_CONFIGURATION,
            55,
            0,
            2,
            1,
            0,
            0x80,
            (self.max_power_ma / 2) as u8,
        ]
    }

    /// Descriptor of a bulk endpoint with the given address.
    pub open spec fn bulk_endpoint(self, address: u8) -> Seq<u8> {
        seq![
            7u8,
            DESCRIPTOR_ENDPOINT,
            address,
            0x02,
            (self.bulk_packet_size % 256) as u8,
            (self.bulk_packet_size / 256) as u8,
            0,
        ]
    }

    /// The configuration descriptor and, after it, the descriptors of both
    /// interfaces, of the class and of the two bulk endpoints.
    pub open spec fn configuration_descriptor(self) -> Seq<u8> {
        self.configuration_header() + comm_interface() + cdc_header() + cdc_acm() + cdc_union()
            + data_interface() + self.bulk_endpoint(BULK_OUT_ADDRESS) + self.bulk_endpoint(
            BULK_IN_ADDRESS,
        )
    }

    /// String descriptor `index`: the language list for index 0, else the
    /// text of the string, each character as a little-endian 16-bit unit.
    pub open spec fn string_descriptor(self, index: u8) -> Option<Seq<u8>> {
        if index == 0 {
            Some(language_descriptor())
        } else {
            match self.text(index) {
                Some(text) => Some(text_descriptor(text)),
                None => None,
            }
        }
    }

    /// The descriptor the host asks for with GET_DESCRIPTOR, if the device
    /// has it.
    pub open spec fn descriptor(self, kind: u8, index: u8) -> Option<Seq<u8>> {
        if kind == DESCRIPTOR_DEVICE {
            Some(self.device_descriptor())
        } else if kind == DESCRIPTOR_CONFIGURATION {
            Some(self.configuration_descriptor())
        } else if kind == DESCRIPTOR_STRING {
            self.string_descriptor(index)
        } else if kind == DESCRIPTOR_BOS {
            Some(bos_descriptor())
        } else {
            None
        }
    }
}

/// The communications interface, which has no endpoint of its own.
pub open spec fn comm_interface() -> Seq<u8> {
    seq![
        9u8,
        DESCRIPTOR_INTERFACE,
        COMM_INTERFACE,
        0,
        0,
        CLASS_CDC,
        SUBCLASS_ACM,
        PROTOCOL_NONE,
        0,
    ]
}

/// Class header: CDC version 1.10.
pub open spec fn cdc_header() -> Seq<u8> {
    seq![5u8, DESCRIPTOR_CS_INTERFACE, 0x00, 0x10, 0x01]
}

/// Abstract control management: line coding and control line state are
/// supported.
pub open spec fn cdc_acm() -> Seq<u8> {
    seq![4u8, DESCRIPTOR_CS_INTERFACE, 0x02, 0x02]
}

/// Union of the communications interface with the data interface.
pub open spec fn cdc_union() -> Seq<u8> {
    seq![5u8, DESCRIPTOR_CS_INTERFACE, 0x06, COMM_INTERFACE, DATA_INTERFACE]
}

/// The data interface with its two endpoints.
pub open spec fn data_interface() -> Seq<u8> {
    seq![
        9u8,
        DESCRIPTOR_INTERFACE,
        DATA_INTERFACE,
        0,
        2,
        CLASS_CDC_DATA,
        0,
        PROTOCOL_NONE,
        0,
    ]
}

/// A binary object store that holds no capability.
pub open spec fn bos_descriptor() -> Seq<u8> {
    seq![5u8, DESCRIPTOR_BOS, 5, 0, 0]
}

/// String descriptor 0: the one language, US English.
pub open spec fn language_descriptor() -> Seq<u8> {
    seq![4u8, DESCRIPTOR_STRING, 0x09, 0x04]
}

/// The string descriptor of an ASCII text.
pub open spec fn text_descriptor(text: Seq<u8>) -> Seq<u8> {
    Seq::new(
        2 + 2 * text.len(),
        |i: int|
            if i == 0 {
                (2 + 2 * text.len()) as u8
            } else if i == 1 {
                DESCRIPTOR_STRING
            } else if i % 2 == 0 {
                text[(i - 2) / 2]
            } else {
                0u8
            },
    )
}

/// The texts of the three device strings, each optional.
pub struct StringTable {
    pub manufacturer: Option<Vec<u8>>,
    pub product: Option<Vec<u8>>,
    pub serial_number: Option<Vec<u8>>,
}

/// A validated device configuration.
pub struct DeviceConfig {
    vendor_id: u16,
    product_id: u16,
    strings: StringTable,
    max_packet_size_0: u8,
    bulk_packet_size: u16,
    max_power_ma: u16,
}

impl View for DeviceConfig {
    type V = ConfigModel;

    closed spec fn view(&self) -> ConfigModel {
        ConfigModel {
            vendor_id: self.vendor_id,
            product_id: self.product_id,
            manufacturer: option_view(self.strings.manufacturer),
            product: option_view(self.strings.product),
            serial_number: option_view(self.strings.serial_number),
            max_packet_size_0: self.max_packet_size_0,
            bulk_packet_size: self.bulk_packet_size,
            max_power_ma: self.max_power_ma,
        }
    }
}

fn packet_size_ok(size: u16) -> (ok: bool)
    ensures
        ok == valid_packet_size(size as int),
{
    size == 8 || size == 16 || size == 32 || size == 64
}

fn text_ok(text: &Vec<u8>) -> (ok: bool)
    ensures
        ok == valid_text(text@),
{
    if text.len() > MAX_STRING_LEN {
        return false;
    }
    let mut i: usize = 0;
    while i < text.len()
        invariant
            i <= text.len(),
            forall|j: int| 0 <= j < i ==> text@[j] < 128,
        decreases text.len() - i,
    {
        if text[i] >= 128 {
            return false;
        }
        i += 1;
    }
    true
}

fn entry_ok(entry: &Option<Vec<u8>>) -> (ok: bool)
    ensures
        ok == valid_entry(option_view(*entry)),
{
    match entry {
        Some(text) => text_ok(text),
        None => true,
    }
}

fn append(out: &mut Vec<u8>, part: &[u8])
    ensures
        final(out)@ == old(out)@ + part@,
{
    out.extend_from_slice(part);
    assert(out@ =~= old(out)@ + part@);
}

impl DeviceConfig {
    /// Checks the values and keeps them.  The packet sizes must be 8, 16,
    /// 32 or 64, the current at most 500 mA, and each string ASCII of at
    /// most 126 characters.
    pub fn new(
        vendor_id: u16,
        product_id: u16,
        strings: StringTable,
        max_packet_size_0: u8,
        bulk_packet_size: u16,
        max_power_ma: u16,
    ) -> (r: Option<DeviceConfig>)
        ensures
            r is Some <==> (ConfigModel {
                vendor_id,
                product_id,
                manufacturer: option_view(strings.manufacturer),
                product: option_view(strings.product),
                serial_number: option_view(strings.serial_number),
                max_packet_size_0,
                bulk_packet_size,
                max_power_ma,
            }).valid(),
            r matches Some(config) ==> config@ == (ConfigModel {
                vendor_id,
                product_id,
                manufacturer: option_view(strings.manufacturer),
                product: option_view(strings.product),
                serial_number: option_view(strings.serial_number),
                max_packet_size_0,
                bulk_packet_size,
                max_power_ma,
            }),
    {
        if packet_size_ok(max_packet_size_0 as u16) && packet_size_ok(bulk_packet_size)
            && max_power_ma <= MAX_POWER_MA && entry_ok(&strings.manufacturer) && entry_ok(
            &strings.product,
        ) && entry_ok(&strings.serial_number) {
            Some(
                DeviceConfig {
                    vendor_id,
                    product_id,
                    strings,
                    max_packet_size_0,
                    bulk_packet_size,
                    max_power_ma,
                },
            )
        } else {
            None
        }
    }

    /// Every configuration that exists is valid.
    pub open spec fn wf(&self) -> bool {
        self@.valid()
    }

    pub fn vendor_id(&self) -> (id: u16)
        ensures
            id == self@.vendor_id,
    {
        self.vendor_id
    }

    pub fn product_id(&self) -> (id: u16)
        ensures
            id == self@.product_id,
    {
        self.product_id
    }

    pub fn max_power_ma(&self) -> (current: u16)
        ensures
            current == self@.max_power_ma,
    {
        self.max_power_ma
    }

    pub fn max_packet_size_0(&self) -> (size: u8)
        ensures
            size == self@.max_packet_size_0,
    {
        self.max_packet_size_0
    }

    pub fn bulk_packet_size(&self) -> (size: u16)
        ensures
            size == self@.bulk_packet_size,
    {
        self.bulk_packet_size
    }

    /// Builds the device descriptor.
    pub fn device_descriptor(&self) -> (out: Vec<u8>)
        ensures
            out@ == self@.device_descriptor(),
    {
        let bytes: [u8; 18] = [
            18,
            DESCRIPTOR_DEVICE,
            0x10,
            0x02,
            CLASS_CDC,
            SUBCLASS_ACM,
            PROTOCOL_NONE,
            self.max_packet_size_0,
            (self.vendor_id % 256) as u8,
            (self.vendor_id / 256) as u8,
            (self.product_id % 256) as u8,
            (self.product_id / 256) as u8,
            0x10,
            0x00,
            if self.strings.manufacturer.is_some() {
                1
            } else {
                0
            },
            if self.strings.product.is_some() {
                2
            } else {
                0
            },
            if self.strings.serial_number.is_some() {
                3
            } else {
                0
            },
            1,
        ];
        let out = vstd::slice::slice_to_vec(bytes.as_slice());
        assert(out@ =~= self@.device_descriptor());
        out
    }

    /// Builds the configuration descriptor.
    pub fn configuration_descriptor(&self) -> (out: Vec<u8>)
        ensures
            out@ == self@.configuration_descriptor(),
    {
        let size_low: u8 = (self.bulk_packet_size % 256) as u8;
        let size_high: u8 = (self.bulk_packet_size / 256) as u8;
        let header: [u8; 9] = [
            9,
            DESCRIPTOR_CONFIGURATION,
            55,
            0,
            2,
            1,
            0,
            0x80,
            (self.max_power_ma / 2) as u8,
        ];
        let comm: [u8; 9] = [
            9,
            DESCRIPTOR_INTERFACE,
            COMM_INTERFACE,
            0,
            0,
            CLASS_CDC,
            SUBCLASS_ACM,
            PROTOCOL_NONE,
            0,
        ];
        let class_header: [u8; 5] = [5, DESCRIPTOR_CS_INTERFACE, 0x00, 0x10, 0x01];
        let acm: [u8; 4] = [4, DESCRIPTOR_CS_INTERFACE, 0x02, 0x02];
        let union: [u8; 5] = [5, DESCRIPTOR_CS_INTERFACE, 0x06, COMM_INTERFACE, DATA_INTERFACE];
        let data: [u8; 9] = [
            9,
            DESCRIPTOR_INTERFACE,
            DATA_INTERFACE,
            0,
            2,
            CLASS_CDC_DATA,
            0,
            PROTOCOL_NONE,
            0,
        ];
        let bulk_out: [u8; 7] = [
            7,
            DESCRIPTOR_ENDPOINT,
            BULK_OUT_ADDRESS,
            0x02,
            size_low,
            size_high,
            0,
        ];
        let bulk_in: [u8; 7] = [
            7,
            DESCRIPTOR_ENDPOINT,
            BULK_IN_ADDRESS,
            0x02,
            size_low,
            size_high,
            0,
        ];
        assert(header@ =~= self@.configuration_header());
        assert(comm@ =~= comm_interface());
        assert(class_header@ =~= cdc_header());
        assert(acm@ =~= cdc_acm());
        assert(union@ =~= cdc_union());
        assert(data@ =~= data_interface());
        assert(bulk_out@ =~= self@.bulk_endpoint(BULK_OUT_ADDRESS));
        assert(bulk_in@ =~= self@.bulk_endpoint(BULK_IN_ADDRESS));
        let mut out: Vec<u8> = Vec::new();
        assert(out@ + header@ =~= header@);
        append(&mut out, header.as_slice());
        append(&mut out, comm.as_slice());
        append(&mut out, class_header.as_slice());
        append(&mut out, acm.as_slice());
        append(&mut out, union.as_slice());
        append(&mut out, data.as_slice());
        append(&mut out, bulk_out.as_slice());
        append(&mut out, bulk_in.as_slice());
        out
    }

    /// Builds string descriptor `index`, if the device has it.
    pub fn string_descriptor(&self, index: u8) -> (r: Option<Vec<u8>>)
        requires
            self.wf(),
        ensures
            option_view(r) == self@.string_descriptor(index),
    {
        if index == 0 {
            let bytes: [u8; 4] = [4, DESCRIPTOR_STRING, 0x09, 0x04];
            let out = vstd::slice::slice_to_vec(bytes.as_slice());
            assert(out@ =~= language_descriptor());
            return Some(out);
        }
        let entry = if index == 1 {
            &self.strings.manufacturer
        } else if index == 2 {
            &self.strings.product
        } else if index == 3 {
            &self.strings.serial_number
        } else {
            &None
        };
        match entry {
            Some(text) => encode_text(text),
            None => None,
        }
    }

    /// Builds the descriptor of the given kind and index, if the device has
    /// it.
    pub fn descriptor(&self, kind: u8, index: u8) -> (r: Option<Vec<u8>>)
        requires
            self.wf(),
        ensures
            option_view(r) == self@.descriptor(kind, index),
    {
        if kind == DESCRIPTOR_DEVICE {
            Some(self.device_descriptor())
        } else if kind == DESCRIPTOR_CONFIGURATION {
            Some(self.configuration_descriptor())
        } else if kind == DESCRIPTOR_STRING {
            self.string_descriptor(index)
        } else if kind == DESCRIPTOR_BOS {
            Some(build_bos_descriptor())
        } else {
            None
        }
    }
}

/// Builds the string descriptor of a text, if the text is ASCII of at
/// most 126 characters.
pub fn encode_text(text: &Vec<u8>) -> (r: Option<Vec<u8>>)
    ensures
        r is Some <==> valid_text(text@),
        r matches Some(out) ==> out@ == text_descriptor(text@),
{
    if !text_ok(text) {
        return None;
    }
    let mut out: Vec<u8> = Vec::new();
    out.push((2 + 2 * text.len()) as u8);
    out.push(DESCRIPTOR_STRING);
    let mut i: usize = 0;
    while i < text.len()
        invariant
            i <= text.len(),
            text@.len() <= MAX_STRING_LEN,
            out@.len() == 2 + 2 * i,
            forall|j: int| 0 <= j < out@.len() ==> out@[j] == text_descriptor(text@)[j],
        decreases text.len() - i,
    {
        out.push(text[i]);
        out.push(0);
        i += 1;
    }
    assert(out@ =~= text_descriptor(text@));
    Some(out)
}

/// Builds the binary object store descriptor.
pub fn build_bos_descriptor() -> (out: Vec<u8>)
    ensures
        out@ == bos_descriptor(),
{
    let bytes: [u8; 5] = [5, DESCRIPTOR_BOS, 5, 0, 0];
    let out = vstd::slice::slice_to_vec(bytes.as_slice());
    assert(out@ =~= bos_descriptor());
    out
}

/// A chain of descriptors that can be walked: each begins with its own
/// length, which is at least 2 and reaches no further than the end.
pub open spec fn well_framed(bytes: Seq<u8>) -> bool
    decreases bytes.len(),
{
    bytes.len() == 0 || (2 <= bytes[0] <= bytes.len() && well_framed(bytes.skip(bytes[0] as int)))
}

/// A descriptor in front of a chain that can be walked makes a chain
/// that can be walked.
pub proof fn lemma_framed_chain(head: Seq<u8>, tail: Seq<u8>)
    requires
        2 <= head.len() <= 255,
        head[0] == head.len(),
        well_framed(tail),
    ensures
        well_framed(head + tail),
{
    assert((head + tail)[0] == head[0]);
    assert((head + tail).skip(head[0] as int) =~= tail);
}

/// The device descriptor is 18 bytes long, says so in its first byte,
/// and reports a communications device of the abstract control model
/// with one configuration.
pub proof fn lemma_device_descriptor_shape(config: ConfigModel)
    ensures
        config.device_descriptor().len() == DEVICE_DESCRIPTOR_LEN,
        config.device_descriptor()[0] == DEVICE_DESCRIPTOR_LEN,
        config.device_descriptor()[1] == DESCRIPTOR_DEVICE,
        config.device_descriptor()[4] == CLASS_CDC,
        config.device_descriptor()[5] == SUBCLASS_ACM,
        config.device_descriptor()[6] == PROTOCOL_NONE,
        config.device_descriptor()[7] == config.max_packet_size_0,
        config.device_descriptor()[8] + 256 * config.device_descriptor()[9] == config.vendor_id,
        config.device_descriptor()[10] + 256 * config.device_descriptor()[11]
            == config.product_id,
        config.device_descriptor()[17] == 1,
        well_framed(config.device_descriptor()),
{
    lemma_framed_chain(config.device_descriptor(), Seq::empty());
    assert(config.device_descriptor() + Seq::<u8>::empty() =~= config.device_descriptor());
}

/// The configuration descriptor is 55 bytes long, says so in its total
/// length, can be walked from descriptor to descriptor, and names two
/// interfaces and both bulk endpoints with the packet size of the
/// configuration.
pub proof fn lemma_configuration_descriptor_shape(config: ConfigModel)
    requires
        config.valid(),
    ensures
        config.configuration_descriptor().len() == CONFIGURATION_DESCRIPTOR_LEN,
        config.configuration_descriptor()[2] + 256 * config.configuration_descriptor()[3]
            == CONFIGURATION_DESCRIPTOR_LEN,
        config.configuration_descriptor()[4] == 2,
        config.configuration_descriptor()[8] == config.max_power_ma / 2,
        config.configuration_descriptor().subrange(41, 48) == config.bulk_endpoint(
            BULK_OUT_ADDRESS,
        ),
        config.configuration_descriptor().subrange(48, 55) == config.bulk_endpoint(
            BULK_IN_ADDRESS,
        ),
        well_framed(config.configuration_descriptor()),
{
    let bulk_in = config.bulk_endpoint(BULK_IN_ADDRESS);
    let bulk_out = config.bulk_endpoint(BULK_OUT_ADDRESS);
    let t7 = bulk_in + Seq::<u8>::empty();
    lemma_framed_chain(bulk_in, Seq::empty());
    let t6 = bulk_out + t7;
    lemma_framed_chain(bulk_out, t7);
    let t5 = data_interface() + t6;
    lemma_framed_chain(data_interface(), t6);
    let t4 = cdc_union() + t5;
    lemma_framed_chain(cdc_union(), t5);
    let t3 = cdc_acm() + t4;
    lemma_framed_chain(cdc_acm(), t4);
    let t2 = cdc_header() + t3;
    lemma_framed_chain(cdc_header(), t3);
    let t1 = comm_interface() + t2;
    lemma_framed_chain(comm_interface(), t2);
    let t0 = config.configuration_header() + t1;
    lemma_framed_chain(config.configuration_header(), t1);
    assert(t0 =~= config.configuration_descriptor());
    assert(config.configuration_descriptor().subrange(41, 48) =~= bulk_out);
    assert(config.configuration_descriptor().subrange(48, 55) =~= bulk_in);
}

/// The string descriptor of a valid text says its own length in its
/// first byte and holds each character followed by a zero byte.
pub proof fn lemma_text_descriptor_shape(text: Seq<u8>)
    requires
        valid_text(text),
    ensures
        text_descriptor(text).len() == 2 + 2 * text.len(),
        text_descriptor(text).len() <= 254,
        text_descriptor(text)[0] == text_descriptor(text).len(),
        text_descriptor(text)[1] == DESCRIPTOR_STRING,
        forall|i: int|
            0 <= i < text.len() ==> text_descriptor(text)[2 + 2 * i] == text[i]
                && text_descriptor(text)[3 + 2 * i] == 0,
{
}

} // verus!
