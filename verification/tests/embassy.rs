//! The parts of the library that mirror small functions of embassy-usb,
//! held against those functions.

use embassy_usb::class::cdc_acm::{ParityType, StopBits as EmbassyStopBits, USB_CLASS_CDC};
use embassy_usb::control::{Recipient as EmbassyRecipient, Request, RequestType as EmbassyType};
use embassy_usb::descriptor::descriptor_type;
use embassy_usb::driver::Direction as EmbassyDirection;
use usb_cdc_echo::descriptor::{
    CLASS_CDC, DESCRIPTOR_BOS, DESCRIPTOR_CONFIGURATION, DESCRIPTOR_DEVICE, DESCRIPTOR_ENDPOINT,
    DESCRIPTOR_INTERFACE, DESCRIPTOR_STRING,
};
use usb_cdc_echo::line_coding::{LineCoding, Parity, StopBits};
use usb_cdc_echo::setup::{
    Direction, Recipient, RequestType, SetupPacket, CONFIGURATION_VALUE, GET_DESCRIPTOR,
    SET_ADDRESS, SET_CONFIGURATION,
};

fn same_direction(ours: Direction, theirs: EmbassyDirection) -> bool {
    match (ours, theirs) {
        (Direction::In, EmbassyDirection::In) => true,
        (Direction::Out, EmbassyDirection::Out) => true,
        _ => false,
    }
}

fn same_type(ours: RequestType, theirs: EmbassyType) -> bool {
    match (ours, theirs) {
        (RequestType::Standard, EmbassyType::Standard) => true,
        (RequestType::Class, EmbassyType::Class) => true,
        (RequestType::Vendor, EmbassyType::Vendor) => true,
        (RequestType::Reserved, EmbassyType::Reserved) => true,
        _ => false,
    }
}

fn same_recipient(ours: Recipient, theirs: EmbassyRecipient) -> bool {
    match (ours, theirs) {
        (Recipient::Device, EmbassyRecipient::Device) => true,
        (Recipient::Interface, EmbassyRecipient::Interface) => true,
        (Recipient::Endpoint, EmbassyRecipient::Endpoint) => true,
        (Recipient::Other, EmbassyRecipient::Other) => true,
        (Recipient::Reserved, EmbassyRecipient::Reserved) => true,
        _ => false,
    }
}

#[test]
fn setup_packets_parse_as_in_embassy() {
    let tails: [[u8; 7]; 5] = [
        [0, 0, 0, 0, 0, 0, 0],
        [6, 0, 1, 0, 0, 18, 0],
        [0x20, 0x34, 0x12, 0x78, 0x56, 0xbc, 0x9a],
        [0xff, 0xff, 0xff, 0xff, 0xff, 0xff, 0xff],
        [0x22, 0x03, 0x00, 0x01, 0x00, 0x00, 0x80],
    ];
    for first in 0u8..=255 {
        for tail in tails {
            let raw = [first, tail[0], tail[1], tail[2], tail[3], tail[4], tail[5], tail[6]];
            let ours = SetupPacket::parse(&raw);
            let theirs = Request::parse(&raw);
            assert!(same_direction(ours.direction, theirs.direction));
            assert!(same_type(ours.request_type, theirs.request_type));
            assert!(same_recipient(ours.recipient, theirs.recipient));
            assert_eq!(ours.request, theirs.request);
            assert_eq!(ours.value, theirs.value);
            assert_eq!(ours.index, theirs.index);
            assert_eq!(ours.length, theirs.length);
        }
    }
}

#[test]
fn stop_bits_and_parity_decode_as_in_embassy() {
    for code in 0u8..=255 {
        assert_eq!(StopBits::from_code(code).code(), EmbassyStopBits::from(code) as u8);
        assert_eq!(Parity::from_code(code).code(), ParityType::from(code) as u8);
    }
}

#[test]
fn initial_line_coding_is_that_of_embassy() {
    let ours = LineCoding::default();
    let theirs = embassy_usb::class::cdc_acm::LineCoding::default();
    assert_eq!(ours.data_rate, theirs.data_rate());
    assert_eq!(ours.data_bits, theirs.data_bits());
    assert_eq!(ours.stop_bits.code(), theirs.stop_bits() as u8);
    assert_eq!(ours.parity.code(), theirs.parity_type() as u8);
}

#[test]
fn codes_are_those_of_embassy() {
    assert_eq!(DESCRIPTOR_DEVICE, descriptor_type::DEVICE);
    assert_eq!(DESCRIPTOR_CONFIGURATION, descriptor_type::CONFIGURATION);
    assert_eq!(DESCRIPTOR_STRING, descriptor_type::STRING);
    assert_eq!(DESCRIPTOR_INTERFACE, descriptor_type::INTERFACE);
    assert_eq!(DESCRIPTOR_ENDPOINT, descriptor_type::ENDPOINT);
    assert_eq!(DESCRIPTOR_BOS, descriptor_type::BOS);
    assert_eq!(CLASS_CDC, USB_CLASS_CDC);
    assert_eq!(SET_ADDRESS, Request::SET_ADDRESS);
    assert_eq!(GET_DESCRIPTOR, Request::GET_DESCRIPTOR);
    assert_eq!(SET_CONFIGURATION, Request::SET_CONFIGURATION);
    assert_eq!(CONFIGURATION_VALUE, embassy_usb::CONFIGURATION_VALUE);
}
