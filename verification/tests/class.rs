use usb_cdc_echo::class::{CdcAcm, ControlState, Suspension};
use usb_cdc_echo::descriptor::{DeviceConfig, StringTable};
use usb_cdc_echo::driver::{ControlAnswer, DeviceState, UsbDriver};
use usb_cdc_echo::endpoint::Handshake;
use usb_cdc_echo::error::UsbError;
use usb_cdc_echo::events::Event;
use usb_cdc_echo::line_coding::{LineCoding, Parity, StopBits};
use usb_cdc_echo::setup::SetupPacket;

const SET_LINE_CODING: [u8; 8] = [0x21, 0x20, 0, 0, 0, 0, 7, 0];
const GET_LINE_CODING: [u8; 8] = [0xA1, 0x21, 0, 0, 0, 0, 7, 0];
const DTR_ON: [u8; 8] = [0x21, 0x22, 1, 0, 0, 0, 0, 0];
const DTR_OFF: [u8; 8] = [0x21, 0x22, 0, 0, 0, 0, 0, 0];

fn config() -> DeviceConfig {
    let strings = StringTable {
        manufacturer: Some(b"ch32-rs".to_vec()),
        product: Some(b"ZEDBOP".to_vec()),
        serial_number: Some(b"12345678".to_vec()),
    };
    DeviceConfig::new(0x16c0, 0x27dd, strings, 64, 64, 100).unwrap()
}

fn attached() -> (CdcAcm, UsbDriver, DeviceConfig) {
    let config = config();
    let mut driver = UsbDriver::new(&config);
    driver.initialize();
    (CdcAcm::new(), driver, config)
}

fn configured() -> (CdcAcm, UsbDriver, DeviceConfig) {
    let (class, mut driver, config) = attached();
    driver.set_address(7);
    driver.configure_endpoints();
    (class, driver, config)
}

/// The host sends a SETUP packet and the class handles it.
fn request(
    class: &mut CdcAcm,
    driver: &mut UsbDriver,
    config: &DeviceConfig,
    raw: [u8; 8],
) -> Result<(), UsbError> {
    driver.irq_setup(raw);
    match driver.poll_event() {
        Some(Event::Setup { raw }) => class.handle_setup(&raw, driver, config),
        other => panic!("expected a SETUP packet, got {:?}", other),
    }
}

/// The host sends a data stage and the class handles it.
fn data_stage(class: &mut CdcAcm, driver: &mut UsbDriver, config: &DeviceConfig, data: &[u8]) -> Result<(), UsbError> {
    assert_eq!(driver.irq_control_out(data), Handshake::Ack);
    let event = driver.poll_event().unwrap();
    class.handle_event(event, driver, config)
}

#[test]
fn a_new_class_has_the_initial_line_state() {
    let class = CdcAcm::new();
    assert_eq!(class.line.coding, LineCoding::default());
    assert!(!class.line.dtr);
    assert!(!class.line.rts);
    assert!(!class.connect_signal);
    assert_eq!(class.control, ControlState::Idle);
    assert_eq!(class.read, Suspension::Idle);
    assert_eq!(class.write, Suspension::Idle);
}

#[test]
fn get_descriptor_is_cut_to_the_length_asked_for() {
    let (mut class, mut driver, config) = attached();
    assert_eq!(request(&mut class, &mut driver, &config, [0x80, 6, 0, 1, 0, 0, 8, 0]), Ok(()));
    let (answer, data) = driver.irq_control_in();
    assert_eq!(answer, ControlAnswer::Data);
    assert_eq!(data, config.device_descriptor()[..8].to_vec());

    assert_eq!(request(&mut class, &mut driver, &config, [0x80, 6, 0, 1, 0, 0, 18, 0]), Ok(()));
    assert_eq!(driver.irq_control_in(), (ControlAnswer::Data, config.device_descriptor()));

    assert_eq!(request(&mut class, &mut driver, &config, [0x80, 6, 0, 1, 0, 0, 0xff, 0xff]), Ok(()));
    assert_eq!(driver.irq_control_in(), (ControlAnswer::Data, config.device_descriptor()));

    assert_eq!(request(&mut class, &mut driver, &config, [0x80, 6, 0, 1, 0, 0, 0, 0]), Ok(()));
    assert_eq!(driver.irq_control_in(), (ControlAnswer::Data, vec![]));
}

#[test]
fn get_descriptor_serves_every_kind() {
    let (mut class, mut driver, config) = attached();
    assert_eq!(request(&mut class, &mut driver, &config, [0x80, 6, 0, 2, 0, 0, 9, 0]), Ok(()));
    assert_eq!(driver.irq_control_in().1, vec![9, 2, 55, 0, 2, 1, 0, 0x80, 50]);
    assert_eq!(request(&mut class, &mut driver, &config, [0x80, 6, 0, 2, 0, 0, 55, 0]), Ok(()));
    assert_eq!(driver.irq_control_in().1, config.configuration_descriptor());
    assert_eq!(request(&mut class, &mut driver, &config, [0x80, 6, 0, 15, 0, 0, 64, 0]), Ok(()));
    assert_eq!(driver.irq_control_in().1, vec![5, 15, 5, 0, 0]);
    assert_eq!(request(&mut class, &mut driver, &config, [0x80, 6, 0, 3, 0, 0, 255, 0]), Ok(()));
    assert_eq!(driver.irq_control_in().1, vec![4, 3, 9, 4]);
    assert_eq!(request(&mut class, &mut driver, &config, [0x80, 6, 2, 3, 9, 4, 255, 0]), Ok(()));
    assert_eq!(driver.irq_control_in().1, config.string_descriptor(2).unwrap());
}

#[test]
fn get_descriptor_of_an_unknown_kind_stalls() {
    let (mut class, mut driver, config) = attached();
    assert_eq!(
        request(&mut class, &mut driver, &config, [0x80, 6, 0, 6, 0, 0, 10, 0]),
        Err(UsbError::ProtocolStall)
    );
    assert_eq!(driver.irq_control_in(), (ControlAnswer::Stalled, vec![]));
    assert_eq!(
        request(&mut class, &mut driver, &config, [0x80, 6, 4, 3, 9, 4, 255, 0]),
        Err(UsbError::ProtocolStall)
    );
}

#[test]
fn set_address_moves_to_addressed() {
    let (mut class, mut driver, config) = attached();
    assert_eq!(request(&mut class, &mut driver, &config, [0x00, 5, 42, 0, 0, 0, 0, 0]), Ok(()));
    assert_eq!(driver.irq_control_in(), (ControlAnswer::Accepted, vec![]));
    assert_eq!(driver.state(), DeviceState::Addressed);
    assert_eq!(driver.address(), 42);
}

#[test]
fn set_configuration_moves_to_configured_and_back() {
    let (mut class, mut driver, config) = attached();
    // not before an address is set
    assert_eq!(
        request(&mut class, &mut driver, &config, [0x00, 9, 1, 0, 0, 0, 0, 0]),
        Err(UsbError::ProtocolStall)
    );
    assert_eq!(driver.state(), DeviceState::Default);
    assert_eq!(request(&mut class, &mut driver, &config, [0x00, 9, 0, 0, 0, 0, 0, 0]), Ok(()));
    assert_eq!(driver.state(), DeviceState::Default);
    assert_eq!(request(&mut class, &mut driver, &config, [0x00, 5, 1, 0, 0, 0, 0, 0]), Ok(()));
    assert_eq!(request(&mut class, &mut driver, &config, [0x00, 9, 1, 0, 0, 0, 0, 0]), Ok(()));
    assert_eq!(driver.irq_control_in(), (ControlAnswer::Accepted, vec![]));
    assert_eq!(driver.state(), DeviceState::Configured);
    assert_eq!(request(&mut class, &mut driver, &config, [0x00, 9, 1, 0, 0, 0, 0, 0]), Ok(()));
    assert_eq!(driver.state(), DeviceState::Configured);
    assert_eq!(request(&mut class, &mut driver, &config, [0x00, 9, 0, 0, 0, 0, 0, 0]), Ok(()));
    assert_eq!(driver.state(), DeviceState::Addressed);
    assert_eq!(
        request(&mut class, &mut driver, &config, [0x00, 9, 2, 0, 0, 0, 0, 0]),
        Err(UsbError::ProtocolStall)
    );
}

#[test]
fn line_coding_round_trip() {
    let (mut class, mut driver, config) = attached();
    let payloads: [[u8; 7]; 4] = [
        [0x80, 0x25, 0, 0, 0, 0, 8],
        [0x00, 0xC2, 0x01, 0x00, 2, 2, 7],
        [0xFF, 0xFF, 0xFF, 0xFF, 1, 4, 16],
        [0, 0, 0, 0, 0, 0, 0],
    ];
    for payload in payloads {
        assert_eq!(request(&mut class, &mut driver, &config, SET_LINE_CODING), Ok(()));
        assert_eq!(class.control, ControlState::ControlRequestPending(SetupPacket::parse(&SET_LINE_CODING)));
        assert_eq!(driver.irq_control_in().0, ControlAnswer::Pending);
        assert_eq!(data_stage(&mut class, &mut driver, &config, &payload), Ok(()));
        assert_eq!(class.control, ControlState::Idle);
        assert_eq!(driver.irq_control_in(), (ControlAnswer::Accepted, vec![]));
        assert_eq!(request(&mut class, &mut driver, &config, GET_LINE_CODING), Ok(()));
        assert_eq!(driver.irq_control_in(), (ControlAnswer::Data, payload.to_vec()));
    }
}

#[test]
fn get_line_coding_returns_the_last_of_several() {
    let (mut class, mut driver, config) = attached();
    for payload in [[1u8, 0, 0, 0, 0, 0, 5], [2, 0, 0, 0, 1, 1, 6], [3, 0, 0, 0, 2, 2, 7]] {
        request(&mut class, &mut driver, &config, SET_LINE_CODING).unwrap();
        data_stage(&mut class, &mut driver, &config, &payload).unwrap();
    }
    request(&mut class, &mut driver, &config, GET_LINE_CODING).unwrap();
    assert_eq!(driver.irq_control_in().1, vec![3, 0, 0, 0, 2, 2, 7]);
    assert_eq!(
        class.line.coding,
        LineCoding { data_rate: 3, stop_bits: StopBits::Two, parity: Parity::Even, data_bits: 7 }
    );
}

#[test]
fn get_line_coding_before_any_set_returns_the_default() {
    let (mut class, mut driver, config) = attached();
    request(&mut class, &mut driver, &config, GET_LINE_CODING).unwrap();
    assert_eq!(driver.irq_control_in().1, vec![0x40, 0x1F, 0, 0, 0, 0, 8]);
}

#[test]
fn set_line_coding_with_a_short_data_stage_stalls() {
    let (mut class, mut driver, config) = attached();
    request(&mut class, &mut driver, &config, SET_LINE_CODING).unwrap();
    assert_eq!(
        data_stage(&mut class, &mut driver, &config, &[1, 2, 3]),
        Err(UsbError::ProtocolStall)
    );
    assert_eq!(driver.irq_control_in().0, ControlAnswer::Stalled);
    assert_eq!(class.line.coding, LineCoding::default());
    assert_eq!(class.control, ControlState::Idle);
}

#[test]
fn a_new_request_abandons_the_pending_one() {
    let (mut class, mut driver, config) = attached();
    request(&mut class, &mut driver, &config, SET_LINE_CODING).unwrap();
    request(&mut class, &mut driver, &config, GET_LINE_CODING).unwrap();
    assert_eq!(class.control, ControlState::Idle);
    assert_eq!(driver.irq_control_out(&[9, 9, 9, 9, 0, 0, 8]), Handshake::Nak);
    assert_eq!(driver.irq_control_in().1, vec![0x40, 0x1F, 0, 0, 0, 0, 8]);
}

#[test]
fn unsupported_requests_stall() {
    let (mut class, mut driver, config) = attached();
    for raw in [
        [0x80u8, 0, 0, 0, 0, 0, 2, 0],
        [0x80, 8, 0, 0, 0, 0, 1, 0],
        [0xC0, 1, 0, 0, 0, 0, 0, 0],
        [0x21, 0x00, 0, 0, 0, 0, 0, 0],
        [0x21, 0x23, 0, 0, 0, 0, 0, 0],
        [0x02, 1, 0, 0, 0x81, 0, 0, 0],
    ] {
        assert_eq!(request(&mut class, &mut driver, &config, raw), Err(UsbError::ProtocolStall));
        assert_eq!(driver.irq_control_in(), (ControlAnswer::Stalled, vec![]));
    }
    // the device goes on working
    assert_eq!(request(&mut class, &mut driver, &config, [0x00, 5, 1, 0, 0, 0, 0, 0]), Ok(()));
    assert_eq!(driver.irq_control_in().0, ControlAnswer::Accepted);
}

#[test]
fn dtr_lets_a_waiting_task_go_once_per_edge() {
    let (mut class, mut driver, config) = attached();
    assert!(!class.wait_for_connection());
    request(&mut class, &mut driver, &config, DTR_ON).unwrap();
    assert!(class.line.dtr);
    assert!(class.wait_for_connection());
    assert!(!class.wait_for_connection());
    // asserted again without having been released: no edge
    request(&mut class, &mut driver, &config, DTR_ON).unwrap();
    assert!(!class.wait_for_connection());
    request(&mut class, &mut driver, &config, DTR_OFF).unwrap();
    assert!(!class.line.dtr);
    assert!(!class.wait_for_connection());
    request(&mut class, &mut driver, &config, DTR_ON).unwrap();
    assert!(class.wait_for_connection());
    assert!(!class.wait_for_connection());
}

#[test]
fn rts_alone_does_not_connect() {
    let (mut class, mut driver, config) = attached();
    request(&mut class, &mut driver, &config, [0x21, 0x22, 2, 0, 0, 0, 0, 0]).unwrap();
    assert!(class.line.rts);
    assert!(!class.line.dtr);
    assert!(!class.wait_for_connection());
    request(&mut class, &mut driver, &config, [0x21, 0x22, 3, 0, 0, 0, 0, 0]).unwrap();
    assert!(class.wait_for_connection());
}

#[test]
fn a_connection_signalled_before_the_wait_is_kept() {
    let (mut class, mut driver, config) = attached();
    request(&mut class, &mut driver, &config, DTR_ON).unwrap();
    request(&mut class, &mut driver, &config, DTR_OFF).unwrap();
    assert!(class.wait_for_connection());
    assert!(!class.wait_for_connection());
}

#[test]
fn read_returns_the_packet_verbatim() {
    let (mut class, mut driver, _config) = configured();
    assert_eq!(class.read(&mut driver), None);
    assert_eq!(class.read, Suspension::Suspended);
    assert_eq!(driver.irq_bulk_out(false, b"line\r\nmore\0"), Handshake::Ack);
    assert_eq!(class.read(&mut driver), Some(Ok(b"line\r\nmore\0".to_vec())));
    assert_eq!(class.read, Suspension::Idle);
    assert_eq!(class.read(&mut driver), None);
}

#[test]
fn read_fails_when_not_configured() {
    let (mut class, mut driver, _config) = attached();
    assert_eq!(class.read(&mut driver), Some(Err(UsbError::EndpointDisabled)));
    assert_eq!(class.write(b"x", &mut driver), Some(Err(UsbError::EndpointDisabled)));
}

#[test]
fn a_reset_ends_a_suspended_read_with_disconnected() {
    let (mut class, mut driver, config) = configured();
    assert_eq!(class.read(&mut driver), None);
    driver.irq_reset();
    let event = driver.poll_event().unwrap();
    assert_eq!(event, Event::Reset);
    class.handle_event(event, &mut driver, &config).unwrap();
    assert_eq!(class.read, Suspension::Aborted);
    assert_eq!(class.read(&mut driver), Some(Err(UsbError::Disconnected)));
    // the read after that finds the endpoint disabled
    assert_eq!(class.read(&mut driver), Some(Err(UsbError::EndpointDisabled)));
}

#[test]
fn a_reset_ends_a_suspended_write_with_disconnected() {
    let (mut class, mut driver, config) = configured();
    assert_eq!(class.write(b"one", &mut driver), Some(Ok(())));
    assert_eq!(class.write(b"two", &mut driver), None);
    assert_eq!(class.write, Suspension::Suspended);
    driver.irq_reset();
    let event = driver.poll_event().unwrap();
    class.handle_event(event, &mut driver, &config).unwrap();
    assert_eq!(class.write(b"two", &mut driver), Some(Err(UsbError::Disconnected)));
    assert_eq!(driver.irq_bulk_in(), None);
}

#[test]
fn a_reset_clears_the_line_state() {
    let (mut class, mut driver, config) = configured();
    request(&mut class, &mut driver, &config, DTR_ON).unwrap();
    request(&mut class, &mut driver, &config, SET_LINE_CODING).unwrap();
    data_stage(&mut class, &mut driver, &config, &[0x80, 0x25, 0, 0, 0, 0, 8]).unwrap();
    request(&mut class, &mut driver, &config, SET_LINE_CODING).unwrap();
    class.reset();
    assert_eq!(class, CdcAcm::new());
    class.reset();
    assert_eq!(class, CdcAcm::new());
}

#[test]
fn write_of_65_bytes_is_refused() {
    let (mut class, mut driver, _config) = configured();
    assert_eq!(class.write(&[0u8; 65], &mut driver), Some(Err(UsbError::BufferOverflow)));
    assert_eq!(class.write, Suspension::Idle);
    assert_eq!(driver.irq_bulk_in(), None);
    assert_eq!(class.write(&[0u8; 64], &mut driver), Some(Ok(())));
}

#[test]
fn write_waits_until_the_host_has_taken_the_packet_before() {
    let (mut class, mut driver, _config) = configured();
    assert_eq!(class.write(b"one", &mut driver), Some(Ok(())));
    assert_eq!(class.write(b"two", &mut driver), None);
    assert_eq!(class.write(b"two", &mut driver), None);
    assert_eq!(driver.irq_bulk_in(), Some(b"one".to_vec()));
    assert_eq!(class.write(b"two", &mut driver), Some(Ok(())));
    assert_eq!(driver.irq_bulk_in(), Some(b"two".to_vec()));
}

#[test]
fn events_without_work_for_the_class() {
    let (mut class, mut driver, config) = configured();
    let before = class;
    for event in [
        Event::Suspend,
        Event::Wake,
        Event::EndpointComplete { endpoint: 1, direction: usb_cdc_echo::setup::Direction::Out },
        Event::EndpointComplete { endpoint: 1, direction: usb_cdc_echo::setup::Direction::In },
        Event::EndpointComplete { endpoint: 0, direction: usb_cdc_echo::setup::Direction::In },
        Event::EndpointComplete { endpoint: 0, direction: usb_cdc_echo::setup::Direction::Out },
    ] {
        assert_eq!(class.handle_event(event, &mut driver, &config), Ok(()));
        assert_eq!(class, before);
    }
}
