use usb_cdc_echo::class::Suspension;
use usb_cdc_echo::descriptor::{DeviceConfig, StringTable};
use usb_cdc_echo::driver::{ControlAnswer, DeviceState, InitStep};
use usb_cdc_echo::endpoint::Handshake;
use usb_cdc_echo::firmware::{Firmware, Sleep, SERVICE_BUDGET};
use usb_cdc_echo::setup::Direction;
use usb_cdc_echo::task::Operation;

const GREETING: &[u8] = b"HDMI Dummy Display Switch - USB CDC Ready!\r\n";

fn config() -> DeviceConfig {
    let strings = StringTable {
        manufacturer: Some(b"ch32-rs".to_vec()),
        product: Some(b"ZEDBOP".to_vec()),
        serial_number: Some(b"12345678".to_vec()),
    };
    DeviceConfig::new(0x16c0, 0x27dd, strings, 64, 64, 100).unwrap()
}

/// A control transfer without data stage from the host; returns the answer.
fn control(fw: &mut Firmware, raw: [u8; 8], now: u64) -> (ControlAnswer, Vec<u8>) {
    fw.irq_setup(raw);
    fw.wake_cycle(now);
    fw.irq_control_in()
}

/// Powers on and enumerates up to the configured state.
fn enumerated() -> Firmware {
    let (mut fw, _) = Firmware::power_on(config(), 0);
    fw.irq_reset();
    fw.wake_cycle(0);
    assert_eq!(control(&mut fw, [0x00, 5, 9, 0, 0, 0, 0, 0], 0).0, ControlAnswer::Accepted);
    assert_eq!(control(&mut fw, [0x00, 9, 1, 0, 0, 0, 0, 0], 0).0, ControlAnswer::Accepted);
    assert_eq!(fw.driver().state(), DeviceState::Configured);
    fw
}

/// Enumerates, opens the port and takes the greeting.
fn connected() -> Firmware {
    let mut fw = enumerated();
    assert_eq!(control(&mut fw, [0x21, 0x22, 1, 0, 0, 0, 0, 0], 0).0, ControlAnswer::Accepted);
    assert_eq!(fw.irq_bulk_in(), Some(GREETING.to_vec()));
    fw.wake_cycle(0);
    assert_eq!(fw.task_operation(), Operation::Read);
    fw
}

#[test]
fn power_on_brings_the_controller_up() {
    let (fw, steps) = Firmware::power_on(config(), 250);
    assert_eq!(steps[4], InitStep::AssertPullUp);
    assert!(!steps[..4].contains(&InitStep::AssertPullUp));
    assert!(fw.driver().is_attached());
    assert_eq!(fw.driver().state(), DeviceState::Default);
    assert_eq!(fw.task_operation(), Operation::WaitConnection);
    assert!(fw.led_level());
    assert!(fw.write_protect());
}

#[test]
fn end_to_end() {
    // the device powers on
    let (mut fw, _) = Firmware::power_on(config(), 0);
    assert!(fw.write_protect());
    assert!(fw.led_level());

    // the host resets the bus and enumerates
    fw.irq_reset();
    assert_eq!(fw.wake_cycle(10), Sleep::UntilInterruptOr { deadline_ms: 500 });
    let (answer, device) = control(&mut fw, [0x80, 6, 0, 1, 0, 0, 64, 0], 20);
    assert_eq!(answer, ControlAnswer::Data);
    assert_eq!(device.len(), 18);
    assert_eq!(&device[4..7], &[0x02, 0x02, 0x00]);
    assert_eq!(&device[8..12], &[0xc0, 0x16, 0xdd, 0x27]);
    assert_eq!(control(&mut fw, [0x00, 5, 17, 0, 0, 0, 0, 0], 30).0, ControlAnswer::Accepted);
    assert_eq!(fw.driver().address(), 17);
    let (_, head) = control(&mut fw, [0x80, 6, 0, 2, 0, 0, 9, 0], 40);
    assert_eq!(head, vec![9, 2, 55, 0, 2, 1, 0, 0x80, 50]);
    let (_, full) = control(&mut fw, [0x80, 6, 0, 2, 0, 0, 55, 0], 50);
    assert_eq!(full.len(), 55);
    assert_eq!(&full[48..], &[7, 5, 0x81, 0x02, 64, 0, 0]);
    assert_eq!(control(&mut fw, [0x00, 9, 1, 0, 0, 0, 0, 0], 60).0, ControlAnswer::Accepted);
    assert_eq!(fw.driver().state(), DeviceState::Configured);

    // nothing is sent before the port is opened
    assert_eq!(fw.irq_bulk_in(), None);
    assert_eq!(fw.task_operation(), Operation::WaitConnection);

    // the host asserts DTR and gets the greeting
    assert_eq!(control(&mut fw, [0x21, 0x22, 1, 0, 0, 0, 0, 0], 70).0, ControlAnswer::Accepted);
    assert_eq!(fw.irq_bulk_in(), Some(GREETING.to_vec()));
    assert_eq!(fw.irq_bulk_in(), None);

    // the host sends "ping" and gets "ping"
    assert_eq!(fw.irq_bulk_out(false, b"ping"), Handshake::Ack);
    assert_eq!(fw.wake_cycle(80), Sleep::UntilInterruptOr { deadline_ms: 500 });
    assert_eq!(fw.irq_bulk_in(), Some(b"ping".to_vec()));
    assert_eq!(fw.irq_bulk_in(), None);

    // the light changes every 500 ms whatever the traffic
    let mut toggle = true;
    let mut expected_level = true;
    for now in (100..=3000u64).step_by(100) {
        let packet = vec![(now / 100) as u8; (now / 100) as usize];
        assert_eq!(fw.irq_bulk_out(toggle, &packet), Handshake::Ack);
        toggle = !toggle;
        fw.wake_cycle(now);
        if now % 500 == 0 {
            expected_level = !expected_level;
        }
        assert_eq!(fw.led_level(), expected_level);
        assert!(fw.write_protect());
        assert_eq!(fw.irq_bulk_in(), Some(packet));
    }
}

#[test]
fn every_packet_size_is_echoed() {
    let mut fw = connected();
    let mut toggle = false;
    for len in 1..=64usize {
        let packet: Vec<u8> = (0..len).map(|i| (i * 7 + len) as u8).collect();
        assert_eq!(fw.irq_bulk_out(toggle, &packet), Handshake::Ack);
        toggle = !toggle;
        assert_eq!(fw.wake_cycle(1), Sleep::UntilInterruptOr { deadline_ms: 500 });
        assert_eq!(fw.irq_bulk_in(), Some(packet));
        assert_eq!(fw.irq_bulk_in(), None);
    }
}

#[test]
fn an_empty_packet_is_echoed_too() {
    let mut fw = connected();
    assert_eq!(fw.irq_bulk_out(false, b""), Handshake::Ack);
    fw.wake_cycle(1);
    assert_eq!(fw.irq_bulk_in(), Some(vec![]));
}

#[test]
fn a_packet_of_65_bytes_is_not_echoed() {
    let mut fw = connected();
    assert_eq!(fw.irq_bulk_out(false, &[5u8; 65]), Handshake::NoResponse);
    fw.wake_cycle(1);
    assert_eq!(fw.irq_bulk_in(), None);
    assert_eq!(fw.task_operation(), Operation::Read);
}

#[test]
fn a_repeated_packet_is_not_echoed() {
    let mut fw = connected();
    assert_eq!(fw.irq_bulk_out(false, b"once"), Handshake::Ack);
    fw.wake_cycle(1);
    assert_eq!(fw.irq_bulk_in(), Some(b"once".to_vec()));
    // the same packet again, with the same toggle
    assert_eq!(fw.irq_bulk_out(false, b"once"), Handshake::Ack);
    fw.wake_cycle(2);
    assert_eq!(fw.irq_bulk_in(), None);
    assert_eq!(fw.task_operation(), Operation::Read);
    // the next packet carries the next toggle
    assert_eq!(fw.irq_bulk_out(true, b"twice"), Handshake::Ack);
    fw.wake_cycle(3);
    assert_eq!(fw.irq_bulk_in(), Some(b"twice".to_vec()));
}

#[test]
fn an_echo_waits_for_the_packet_before_it() {
    let mut fw = connected();
    assert_eq!(fw.irq_bulk_out(false, b"one"), Handshake::Ack);
    fw.wake_cycle(1);
    // the host sends the next packet before it has taken the first echo
    assert_eq!(fw.irq_bulk_out(true, b"two"), Handshake::Ack);
    fw.wake_cycle(2);
    assert_eq!(fw.task_operation(), Operation::Write);
    assert_eq!(fw.class().write, Suspension::Suspended);
    // a third waits in the endpoint, and a fourth finds it full
    assert_eq!(fw.irq_bulk_out(false, b"three"), Handshake::Ack);
    fw.wake_cycle(3);
    assert_eq!(fw.irq_bulk_out(true, b"four"), Handshake::Nak);
    assert_eq!(fw.irq_bulk_in(), Some(b"one".to_vec()));
    fw.wake_cycle(4);
    assert_eq!(fw.irq_bulk_in(), Some(b"two".to_vec()));
    fw.wake_cycle(5);
    assert_eq!(fw.irq_bulk_in(), Some(b"three".to_vec()));
    assert_eq!(fw.irq_bulk_out(true, b"four"), Handshake::Ack);
    fw.wake_cycle(6);
    assert_eq!(fw.irq_bulk_in(), Some(b"four".to_vec()));
}

#[test]
fn a_reset_during_a_read_sends_the_task_back_to_waiting() {
    let mut fw = connected();
    assert_eq!(fw.class().read, Suspension::Suspended);
    fw.irq_reset();
    assert!(fw.service_usb());
    assert_eq!(fw.task_operation(), Operation::WaitConnection);
    assert_eq!(fw.driver().state(), DeviceState::Default);
    assert_eq!(fw.class().read, Suspension::Idle);
    assert!(!fw.class().line.dtr);
    assert!(!fw.service_usb());
}

#[test]
fn the_device_can_be_enumerated_again_after_a_reset() {
    let mut fw = connected();
    fw.irq_reset();
    fw.wake_cycle(5);
    assert_eq!(control(&mut fw, [0x00, 5, 3, 0, 0, 0, 0, 0], 6).0, ControlAnswer::Accepted);
    assert_eq!(control(&mut fw, [0x00, 9, 1, 0, 0, 0, 0, 0], 7).0, ControlAnswer::Accepted);
    assert_eq!(fw.irq_bulk_in(), None);
    assert_eq!(control(&mut fw, [0x21, 0x22, 3, 0, 0, 0, 0, 0], 8).0, ControlAnswer::Accepted);
    assert_eq!(fw.irq_bulk_in(), Some(GREETING.to_vec()));
    assert_eq!(fw.irq_bulk_out(false, b"again"), Handshake::Ack);
    fw.wake_cycle(9);
    assert_eq!(fw.irq_bulk_in(), Some(b"again".to_vec()));
}

#[test]
fn closing_and_opening_the_port_greets_again() {
    let mut fw = connected();
    // deconfiguring ends the session
    assert_eq!(control(&mut fw, [0x00, 9, 0, 0, 0, 0, 0, 0], 1).0, ControlAnswer::Accepted);
    assert_eq!(fw.task_operation(), Operation::WaitConnection);
    assert_eq!(control(&mut fw, [0x00, 9, 1, 0, 0, 0, 0, 0], 2).0, ControlAnswer::Accepted);
    // DTR is still asserted: no edge, no greeting
    assert_eq!(control(&mut fw, [0x21, 0x22, 1, 0, 0, 0, 0, 0], 3).0, ControlAnswer::Accepted);
    assert_eq!(fw.irq_bulk_in(), None);
    assert_eq!(control(&mut fw, [0x21, 0x22, 0, 0, 0, 0, 0, 0], 4).0, ControlAnswer::Accepted);
    assert_eq!(fw.irq_bulk_in(), None);
    assert_eq!(control(&mut fw, [0x21, 0x22, 1, 0, 0, 0, 0, 0], 5).0, ControlAnswer::Accepted);
    assert_eq!(fw.irq_bulk_in(), Some(GREETING.to_vec()));
}

#[test]
fn opening_the_port_before_configuration_fails_the_greeting() {
    let (mut fw, _) = Firmware::power_on(config(), 0);
    fw.irq_reset();
    fw.wake_cycle(0);
    assert_eq!(control(&mut fw, [0x21, 0x22, 1, 0, 0, 0, 0, 0], 1).0, ControlAnswer::Accepted);
    assert_eq!(fw.task_operation(), Operation::WaitConnection);
    assert!(fw.class().line.dtr);
    assert!(!fw.class().connect_signal);
    assert_eq!(fw.irq_bulk_in(), None);
}

#[test]
fn line_coding_through_the_firmware() {
    let mut fw = enumerated();
    fw.irq_setup([0x21, 0x20, 0, 0, 0, 0, 7, 0]);
    fw.wake_cycle(1);
    assert_eq!(fw.irq_control_out(&[0x00, 0x10, 0x0E, 0x00, 0, 0, 8]), Handshake::Ack);
    fw.wake_cycle(2);
    assert_eq!(fw.irq_control_in(), (ControlAnswer::Accepted, vec![]));
    assert_eq!(fw.class().line.coding.data_rate, 921_600);
    assert_eq!(
        control(&mut fw, [0xA1, 0x21, 0, 0, 0, 0, 7, 0], 3),
        (ControlAnswer::Data, vec![0x00, 0x10, 0x0E, 0x00, 0, 0, 8])
    );
}

#[test]
fn an_unsupported_request_is_stalled_and_leaves_the_task_alone() {
    let mut fw = connected();
    assert_eq!(control(&mut fw, [0x80, 0, 0, 0, 0, 0, 2, 0], 1), (ControlAnswer::Stalled, vec![]));
    assert_eq!(fw.task_operation(), Operation::Read);
    assert_eq!(fw.irq_bulk_out(false, b"still here"), Handshake::Ack);
    fw.wake_cycle(2);
    assert_eq!(fw.irq_bulk_in(), Some(b"still here".to_vec()));
}

#[test]
fn suspend_and_wake_are_recorded() {
    let mut fw = connected();
    fw.irq_suspend();
    fw.wake_cycle(1);
    assert!(fw.driver().is_suspended());
    fw.irq_wake();
    fw.wake_cycle(2);
    assert!(!fw.driver().is_suspended());
    assert_eq!(fw.task_operation(), Operation::Read);
}

#[test]
fn the_light_keeps_time_without_a_host() {
    let (mut fw, _) = Firmware::power_on(config(), 1000);
    assert_eq!(fw.wake_cycle(1000), Sleep::UntilInterruptOr { deadline_ms: 1500 });
    assert!(fw.led_level());
    assert_eq!(fw.wake_cycle(1499), Sleep::UntilInterruptOr { deadline_ms: 1500 });
    assert!(fw.led_level());
    assert_eq!(fw.wake_cycle(1500), Sleep::UntilInterruptOr { deadline_ms: 2000 });
    assert!(!fw.led_level());
    assert_eq!(fw.wake_cycle(2000), Sleep::UntilInterruptOr { deadline_ms: 2500 });
    assert!(fw.led_level());
    assert!(fw.write_protect());
}

#[test]
fn service_steps_report_progress() {
    let mut fw = enumerated();
    fw.wake_cycle(0);
    assert!(!fw.service_usb());
    assert!(!fw.handle_next_event());
    assert!(!fw.advance_task());
    fw.irq_setup([0x21, 0x22, 1, 0, 0, 0, 0, 0]);
    assert!(fw.handle_next_event());
    assert!(fw.class().connect_signal);
    assert!(fw.advance_task());
    assert_eq!(fw.task_operation(), Operation::Write);
    assert!(fw.advance_task());
    assert_eq!(fw.task_operation(), Operation::Read);
    assert!(!fw.advance_task());
    assert!(fw.driver().bulk_endpoint(Direction::In).slot() == usb_cdc_echo::endpoint::Slot::Full);
    assert_eq!(SERVICE_BUDGET, 4);
}

#[test]
fn a_long_backlog_takes_more_than_one_wake_cycle() {
    let mut fw = connected();
    assert_eq!(fw.irq_bulk_out(false, b"a"), Handshake::Ack);
    fw.wake_cycle(1);
    assert_eq!(fw.irq_bulk_in(), Some(b"a".to_vec()));
    assert_eq!(fw.irq_bulk_out(true, b"b"), Handshake::Ack);
    fw.irq_suspend();
    fw.irq_wake();
    fw.irq_setup([0xA1, 0x21, 0, 0, 0, 0, 7, 0]);
    // five events wait; the budget of one cycle is four steps
    assert_eq!(fw.wake_cycle(500), Sleep::RunAgain);
    // the light got its turn all the same
    assert!(!fw.led_level());
    assert_eq!(fw.wake_cycle(501), Sleep::UntilInterruptOr { deadline_ms: 1000 });
    assert_eq!(fw.irq_bulk_in(), Some(b"b".to_vec()));
    assert_eq!(fw.irq_control_in().0, ControlAnswer::Data);
    assert!(!fw.driver().is_suspended());
}

#[test]
fn the_standard_configuration() {
    let config = usb_cdc_echo::firmware::build_standard_config();
    assert_eq!(config.max_packet_size_0(), 64);
    assert_eq!(config.bulk_packet_size(), 64);
    assert_eq!(config.device_descriptor(), self::config().device_descriptor());
    assert_eq!(config.configuration_descriptor(), self::config().configuration_descriptor());
    for index in 0..=4 {
        assert_eq!(config.string_descriptor(index), self::config().string_descriptor(index));
    }
    assert_eq!(&config.device_descriptor()[8..12], &[0xc0, 0x16, 0xdd, 0x27]);
    assert_eq!(config.configuration_descriptor()[8], 50);
}

/// A small deterministic generator of pseudo-random numbers.
struct Lcg(u64);

impl Lcg {
    fn next(&mut self) -> u64 {
        self.0 = self.0.wrapping_mul(6364136223846793005).wrapping_add(1442695040888963407);
        self.0 >> 33
    }
}

#[test]
fn random_traffic_is_echoed_in_order() {
    for seed in 1..=20u64 {
        let mut rng = Lcg(seed);
        let mut fw = connected();
        let mut toggle = false;
        let mut owed: std::collections::VecDeque<Vec<u8>> = std::collections::VecDeque::new();
        let mut now = 0u64;
        let mut echoed = 0usize;
        for _ in 0..5000 {
            match rng.next() % 5 {
                0 | 1 => {
                    let len = (rng.next() % 65) as usize;
                    let packet: Vec<u8> = (0..len).map(|_| rng.next() as u8).collect();
                    match fw.irq_bulk_out(toggle, &packet) {
                        Handshake::Ack => {
                            owed.push_back(packet);
                            toggle = !toggle;
                        }
                        Handshake::Nak => {}
                        Handshake::NoResponse => panic!("the endpoint must answer"),
                    }
                }
                2 => {
                    // a repetition of the packet before: always with the old toggle
                    let answer = fw.irq_bulk_out(!toggle, b"repeated");
                    assert!(answer == Handshake::Ack || answer == Handshake::Nak);
                }
                3 => {
                    if let Some(packet) = fw.irq_bulk_in() {
                        assert_eq!(Some(packet), owed.pop_front());
                        echoed += 1;
                    }
                }
                _ => {
                    now += rng.next() % 50;
                    fw.wake_cycle(now);
                    assert!(fw.write_protect());
                }
            }
            // the endpoint and the task hold one packet each, the host one in flight
            assert!(owed.len() <= 3);
        }
        // let everything drain
        for _ in 0..10 {
            fw.wake_cycle(now);
            if let Some(packet) = fw.irq_bulk_in() {
                assert_eq!(Some(packet), owed.pop_front());
                echoed += 1;
            }
        }
        assert!(owed.is_empty());
        assert!(echoed > 100);
    }
}

#[test]
fn random_resets_never_wedge_the_firmware() {
    for seed in 100..=110u64 {
        let mut rng = Lcg(seed);
        let (mut fw, _) = Firmware::power_on(config(), 0);
        let mut now = 0u64;
        for _ in 0..3000 {
            match rng.next() % 12 {
                0 => fw.irq_reset(),
                1 => fw.irq_setup([0x00, 5, (rng.next() % 200) as u8, 0, 0, 0, 0, 0]),
                2 => fw.irq_setup([0x00, 9, (rng.next() % 3) as u8, 0, 0, 0, 0, 0]),
                3 => fw.irq_setup([0x21, 0x22, (rng.next() % 4) as u8, 0, 0, 0, 0, 0]),
                4 => fw.irq_setup([0x21, 0x20, 0, 0, 0, 0, 7, 0]),
                5 => {
                    let len = (rng.next() % 10) as usize;
                    fw.irq_control_out(&vec![3u8; len]);
                }
                6 => {
                    fw.irq_control_in();
                }
                7 => {
                    let len = (rng.next() % 70) as usize;
                    fw.irq_bulk_out(rng.next() % 2 == 0, &vec![1u8; len]);
                }
                8 => {
                    if let Some(packet) = fw.irq_bulk_in() {
                        assert!(packet.len() <= 64);
                    }
                }
                9 => fw.irq_suspend(),
                10 => fw.irq_wake(),
                _ => {
                    let mut raw = [0u8; 8];
                    for b in raw.iter_mut() {
                        *b = rng.next() as u8;
                    }
                    fw.irq_setup(raw);
                }
            }
            now += rng.next() % 100;
            let mut cycles = 0;
            while fw.wake_cycle(now) == Sleep::RunAgain {
                cycles += 1;
                assert!(cycles < 8, "the serial task must come to rest");
            }
            assert!(fw.write_protect());
            assert!(fw.driver().address() <= 127);
            let configured = fw.driver().state() == DeviceState::Configured;
            let enabled = fw.driver().bulk_endpoint(Direction::Out).slot()
                != usb_cdc_echo::endpoint::Slot::Disabled;
            assert_eq!(configured, enabled);
        }
        // whatever happened, the device can be enumerated and used
        fw.irq_reset();
        fw.wake_cycle(now);
        assert_eq!(control(&mut fw, [0x00, 5, 3, 0, 0, 0, 0, 0], now).0, ControlAnswer::Accepted);
        assert_eq!(control(&mut fw, [0x00, 9, 1, 0, 0, 0, 0, 0], now).0, ControlAnswer::Accepted);
        assert_eq!(control(&mut fw, [0x21, 0x22, 1, 0, 0, 0, 0, 0], now).0, ControlAnswer::Accepted);
        assert_eq!(fw.irq_bulk_in(), Some(GREETING.to_vec()));
        assert_eq!(fw.irq_bulk_out(false, b"ok"), Handshake::Ack);
        fw.wake_cycle(now);
        assert_eq!(fw.irq_bulk_in(), Some(b"ok".to_vec()));
    }
}
