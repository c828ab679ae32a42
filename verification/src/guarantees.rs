//! What the firmware guarantees, stated over its model and proved.

use crate::class::{truncated, CdcAcm, ControlState, Suspension};
use crate::descriptor::ConfigModel;
use crate::driver::{
    control_offset, init_sequence, ControlAnswer, ControlPhase, DeviceState, DriverModel,
    EventModel, InitStep, BUFFER_TABLE_SIZE, BULK_ENDPOINT, PACKET_MEMORY_SIZE,
};
use crate::endpoint::Slot;
use crate::error::UsbError;
use crate::events::{EventFlags, Flag};
use crate::firmware::{lemma_event_keeps_sizes, Sleep, SystemModel, SERVICE_BUDGET};
use crate::line_coding::{dtr_bit, lemma_encode_of_decode, well_formed_payload, LineCoding};
use crate::setup::{ControlRequest, SetupPacket};
use crate::task::{greeting, Operation, TaskModel};
use vstd::prelude::*;

verus! {

/// During bring-up the pull-up is asserted once, as the last step: the
/// host cannot see the device before the controller is ready.
pub proof fn lemma_pull_up_comes_last()
    ensures
        init_sequence().len() == 5,
        init_sequence().last() == InitStep::AssertPullUp,
        forall|i: int|
            0 <= i < init_sequence().len() - 1 ==> init_sequence()[i] != InitStep::AssertPullUp,
{
}

/// The three transfer buffers lie behind the buffer descriptor table,
/// inside packet memory, and do not overlap.
pub proof fn lemma_buffers_are_disjoint(driver: DriverModel)
    requires
        driver.wf(),
    ensures
        BUFFER_TABLE_SIZE <= control_offset(),
        control_offset() + driver.max_packet_size_0 <= driver.bulk_out.offset,
        driver.bulk_out.offset + driver.bulk_out.max_packet_size <= driver.bulk_in.offset,
        driver.bulk_in.offset + driver.bulk_in.max_packet_size <= PACKET_MEMORY_SIZE,
{
}

/// Handling a bus reset leaves the device in the default state with
/// nothing in flight, and handling it again changes nothing.
pub proof fn lemma_reset_is_idempotent(driver: DriverModel)
    requires
        driver.wf(),
    ensures
        driver.after_reset().wf(),
        driver.after_reset().state == DeviceState::Default,
        driver.after_reset().address == 0,
        driver.after_reset().flags == EventFlags::none(),
        driver.after_reset().bulk_out.slot == Slot::Disabled,
        driver.after_reset().bulk_in.slot == Slot::Disabled,
        !driver.after_reset().bulk_out.toggle,
        !driver.after_reset().bulk_in.toggle,
        driver.after_reset().after_reset() == driver.after_reset(),
{
}

/// A write of more bytes than one packet holds is refused with
/// `BufferOverflow`, whatever the state of the device, and leaves the
/// driver as it was: no transfer goes out.
pub proof fn lemma_oversized_write_is_refused(driver: DriverModel, endpoint: u8, data: Seq<u8>)
    requires
        data.len() > driver.bulk_in.max_packet_size,
    ensures
        driver.write_result(endpoint, data) == Err::<bool, UsbError>(UsbError::BufferOverflow),
        driver.after_write(endpoint, data) == driver,
        driver.after_write(endpoint, data).bulk_in_packet() == driver.bulk_in_packet(),
{
}

/// The same through the class: the write ends at once with
/// `BufferOverflow` and the driver is as it was.
pub proof fn lemma_oversized_class_write_is_refused(
    class: CdcAcm,
    driver: DriverModel,
    data: Seq<u8>,
)
    requires
        data.len() > driver.bulk_in.max_packet_size,
        class.write != Suspension::Aborted,
    ensures
        class.after_write(driver, data).result == Some(
            Err::<(), UsbError>(UsbError::BufferOverflow),
        ),
        class.after_write(driver, data).driver == driver,
{
}

/// A packet whose data toggle is not the expected one is a repetition:
/// it changes nothing, so it is neither handed to a reader nor flagged.
pub proof fn lemma_repeated_packet_is_dropped(driver: DriverModel, toggle: bool, data: Seq<u8>)
    requires
        toggle != driver.bulk_out.toggle,
    ensures
        driver.on_bulk_out(toggle, data) == driver,
{
}

/// A packet that arrives while the one before it has not been read
/// changes nothing: the buffer that a task may be reading is not
/// written.
pub proof fn lemma_full_buffer_is_not_overwritten(driver: DriverModel, toggle: bool, data: Seq<u8>)
    requires
        driver.bulk_out.slot == Slot::Full,
    ensures
        driver.on_bulk_out(toggle, data) == driver,
{
}

/// An accepted packet flips the toggle, so the same packet sent again is
/// dropped.
pub proof fn lemma_retransmission_is_dropped(driver: DriverModel, toggle: bool, data: Seq<u8>)
    requires
        driver.bulk_accepts(toggle, data),
    ensures
        driver.on_bulk_out(toggle, data).bulk_out.held() == Some(data),
        driver.on_bulk_out(toggle, data).on_bulk_out(toggle, data) == driver.on_bulk_out(
            toggle,
            data,
        ),
{
}

/// The firmware with `driver` in place of its driver.
pub open spec fn with_driver(system: SystemModel, driver: DriverModel) -> SystemModel {
    SystemModel { driver, ..system }
}

/// The control pipe is free for a new transfer from the host: the device
/// is attached and neither a reset, a SETUP packet nor a data stage waits
/// to be handled.
pub open spec fn control_quiet(system: SystemModel) -> bool {
    &&& system.driver.attached
    &&& !system.driver.flags.reset
    &&& !system.driver.flags.setup
    &&& !system.driver.flags.control_out
}

/// The firmware after the host has sent the SETUP packet `raw` and one
/// service step has run.
pub open spec fn after_host_setup(system: SystemModel, raw: Seq<u8>) -> SystemModel {
    with_driver(system, system.driver.on_setup(raw)).serviced()
}

/// The firmware after the host has completed a control write: the SETUP
/// packet `raw`, a service step, the data stage `data`, a service step,
/// and the fetch of the answer.
pub open spec fn after_control_write(system: SystemModel, raw: Seq<u8>, data: Seq<u8>) -> SystemModel {
    let awaiting = after_host_setup(system, raw);
    let handled = with_driver(awaiting, awaiting.driver.on_control_out(data)).serviced();
    with_driver(handled, handled.driver.on_control_in())
}

/// The firmware after the host has written each of `payloads` in turn
/// with the SETUP packet `raw`.
pub open spec fn after_control_writes(
    system: SystemModel,
    raw: Seq<u8>,
    payloads: Seq<Seq<u8>>,
) -> SystemModel
    decreases payloads.len(),
{
    if payloads.len() == 0 {
        system
    } else {
        after_control_write(
            after_control_writes(system, raw, payloads.drop_last()),
            raw,
            payloads.last(),
        )
    }
}

/// One service step on a quiet control pipe leaves the line state, the
/// control state and the control pipe as they are.
proof fn lemma_task_keeps_control(system: SystemModel)
    ensures
        system.after_task().class.line == system.class.line,
        system.after_task().class.control == system.class.control,
        system.after_task().config == system.config,
        system.after_task().driver.control_phase == system.driver.control_phase,
        system.after_task().driver.control_data == system.driver.control_data,
        system.after_task().driver.flags == system.driver.flags,
        system.after_task().driver.attached == system.driver.attached,
        system.after_task().driver.setup == system.driver.setup,
{
}

/// The first half of a SET_LINE_CODING transfer: after the SETUP packet
/// the class waits for the data stage.
proof fn lemma_set_line_coding_setup(system: SystemModel, raw: Seq<u8>)
    requires
        control_quiet(system),
        SetupPacket::spec_parse(raw).spec_classify() == ControlRequest::SetLineCoding,
    ensures
        control_quiet(after_host_setup(system, raw)),
        after_host_setup(system, raw).config == system.config,
        after_host_setup(system, raw).class.control
            == ControlState::ControlRequestPending(SetupPacket::spec_parse(raw)),
        after_host_setup(system, raw).driver.control_phase == ControlPhase::AwaitingData,
{
    let s0 = with_driver(system, system.driver.on_setup(raw));
    assert(s0.driver.next_flag() == Some(Flag::Setup));
    let s1 = s0.after_event();
    assert(s1.driver.control_phase == ControlPhase::AwaitingData);
    lemma_task_keeps_control(s1);
}

/// The second half: the data stage sets the line coding and the request
/// is answered with success.
proof fn lemma_set_line_coding_data(system: SystemModel, setup: SetupPacket, payload: Seq<u8>)
    requires
        control_quiet(system),
        system.class.control == ControlState::ControlRequestPending(setup),
        setup.spec_classify() == ControlRequest::SetLineCoding,
        system.driver.control_phase == ControlPhase::AwaitingData,
        payload.len() == 7,
    ensures
        control_quiet(with_driver(system, system.driver.on_control_out(payload)).serviced()),
        with_driver(system, system.driver.on_control_out(payload)).serviced().config
            == system.config,
        with_driver(
            system,
            system.driver.on_control_out(payload),
        ).serviced().driver.control_answer() == ControlAnswer::Accepted,
        Some(
            with_driver(system, system.driver.on_control_out(payload)).serviced().class.line.coding,
        ) == LineCoding::spec_decode(payload),
{
    let s2 = with_driver(system, system.driver.on_control_out(payload));
    assert(s2.driver.control_phase == ControlPhase::DataReceived);
    assert(s2.driver.next_flag() == Some(Flag::ControlOut));
    let polled = s2.driver.polled();
    assert(polled.flags == system.driver.flags);
    lemma_line_coding_data_stage(system.class, polled, setup, payload);
    let s3 = s2.after_event();
    assert(s3.class == system.class.after_control_data(polled).class);
    assert(s3.driver == system.class.after_control_data(polled).driver);
    lemma_task_keeps_control(s3);
}

/// The data stage of a SET_LINE_CODING request, seen from the class: the
/// coding is set, the request is answered with success, and no flag
/// changes.
proof fn lemma_line_coding_data_stage(
    class: CdcAcm,
    driver: DriverModel,
    setup: SetupPacket,
    payload: Seq<u8>,
)
    requires
        class.control == ControlState::ControlRequestPending(setup),
        setup.spec_classify() == ControlRequest::SetLineCoding,
        driver.control_open(),
        driver.control_phase == ControlPhase::DataReceived,
        driver.control_data == payload,
        payload.len() == 7,
    ensures
        Some(class.after_control_data(driver).class.line.coding) == LineCoding::spec_decode(
            payload,
        ),
        class.after_control_data(driver).driver.control_phase == ControlPhase::Accepted,
        class.after_control_data(driver).driver.flags == driver.flags,
        class.after_control_data(driver).driver.attached,
{
}

/// A SET_LINE_CODING transfer with a payload of seven bytes sets the line
/// coding to what the payload carries, is answered with success, and
/// leaves the control pipe free for the next transfer.
pub proof fn lemma_control_write_sets_coding(system: SystemModel, raw: Seq<u8>, payload: Seq<u8>)
    requires
        control_quiet(system),
        SetupPacket::spec_parse(raw).spec_classify() == ControlRequest::SetLineCoding,
        payload.len() == 7,
    ensures
        control_quiet(after_control_write(system, raw, payload)),
        after_control_write(system, raw, payload).config == system.config,
        Some(after_control_write(system, raw, payload).class.line.coding)
            == LineCoding::spec_decode(payload),
        ({
            let awaiting = after_host_setup(system, raw);
            with_driver(awaiting, awaiting.driver.on_control_out(payload)).serviced()
        }).driver.control_answer() == ControlAnswer::Accepted,
{
    lemma_set_line_coding_setup(system, raw);
    lemma_set_line_coding_data(
        after_host_setup(system, raw),
        SetupPacket::spec_parse(raw),
        payload,
    );
}

/// A GET_LINE_CODING transfer is answered with the seven bytes of the
/// line coding in force.
pub proof fn lemma_control_read_gets_coding(system: SystemModel, raw: Seq<u8>)
    requires
        control_quiet(system),
        SetupPacket::spec_parse(raw).spec_classify() == ControlRequest::GetLineCoding,
    ensures
        after_host_setup(system, raw).driver.control_answer() == ControlAnswer::Data,
        after_host_setup(system, raw).driver.control_answer_data()
            == system.class.line.coding.spec_encode(),
{
    let s0 = with_driver(system, system.driver.on_setup(raw));
    assert(s0.driver.next_flag() == Some(Flag::Setup));
    let s1 = s0.after_event();
    assert(s1.driver.control_phase == ControlPhase::Replying);
    assert(s1.driver.control_data == system.class.line.coding.spec_encode());
    lemma_task_keeps_control(s1);
}

/// After any number of SET_LINE_CODING transfers the control pipe is
/// free, and the line coding is the one of the last payload.
pub proof fn lemma_control_writes_keep_last(
    system: SystemModel,
    raw: Seq<u8>,
    payloads: Seq<Seq<u8>>,
)
    requires
        control_quiet(system),
        SetupPacket::spec_parse(raw).spec_classify() == ControlRequest::SetLineCoding,
        forall|i: int| 0 <= i < payloads.len() ==> (#[trigger] payloads[i]).len() == 7,
    ensures
        control_quiet(after_control_writes(system, raw, payloads)),
        payloads.len() > 0 ==> Some(
            after_control_writes(system, raw, payloads).class.line.coding,
        ) == LineCoding::spec_decode(payloads.last()),
    decreases payloads.len(),
{
    if payloads.len() > 0 {
        lemma_control_writes_keep_last(system, raw, payloads.drop_last());
        lemma_control_write_sets_coding(
            after_control_writes(system, raw, payloads.drop_last()),
            raw,
            payloads.last(),
        );
    }
}

/// Line-coding round trip: after the host has set any sequence of
/// well-formed line codings, what it reads back is the payload it set
/// last, byte for byte.
pub proof fn lemma_line_coding_round_trip(
    system: SystemModel,
    set_raw: Seq<u8>,
    get_raw: Seq<u8>,
    payloads: Seq<Seq<u8>>,
)
    requires
        control_quiet(system),
        SetupPacket::spec_parse(set_raw).spec_classify() == ControlRequest::SetLineCoding,
        SetupPacket::spec_parse(get_raw).spec_classify() == ControlRequest::GetLineCoding,
        payloads.len() > 0,
        forall|i: int| 0 <= i < payloads.len() ==> well_formed_payload(#[trigger] payloads[i]),
    ensures
        after_host_setup(
            after_control_writes(system, set_raw, payloads),
            get_raw,
        ).driver.control_answer() == ControlAnswer::Data,
        after_host_setup(
            after_control_writes(system, set_raw, payloads),
            get_raw,
        ).driver.control_answer_data() == payloads.last(),
{
    lemma_control_writes_keep_last(system, set_raw, payloads);
    lemma_control_read_gets_coding(after_control_writes(system, set_raw, payloads), get_raw);
    lemma_encode_of_decode(payloads.last());
}

/// The number of times DTR goes from not asserted to asserted when the
/// host sets the control lines to each of `values` in turn, starting
/// from `dtr`.
pub open spec fn rising_edges(dtr: bool, values: Seq<u16>) -> nat
    decreases values.len(),
{
    if values.len() == 0 {
        0
    } else {
        let edge: nat = if !dtr && dtr_bit(values[0]) {
            1
        } else {
            0
        };
        edge + rising_edges(dtr_bit(values[0]), values.skip(1))
    }
}

/// The number of times a task that waits for a connection is let go
/// when the host sets the control lines to each of `values` in turn and
/// the task asks once after each.
pub open spec fn wake_ups(class: CdcAcm, values: Seq<u16>) -> nat
    decreases values.len(),
{
    if values.len() == 0 {
        0
    } else {
        let asked = class.after_control_lines(values[0]).after_wait();
        let woken: nat = if asked.1 {
            1
        } else {
            0
        };
        woken + wake_ups(asked.0, values.skip(1))
    }
}

/// A SET_CONTROL_LINE_STATE request is always answered with success and
/// has on the class exactly the effect of setting the control lines.
pub proof fn lemma_control_lines_request(
    class: CdcAcm,
    driver: DriverModel,
    config: ConfigModel,
    setup: SetupPacket,
    value: u16,
)
    requires
        setup.spec_classify() == (ControlRequest::SetControlLineState { value }),
    ensures
        class.after_request(driver, config, setup).result == Ok::<(), UsbError>(()),
        class.after_request(driver, config, setup).class.line == class.after_control_lines(
            value,
        ).line,
        class.after_request(driver, config, setup).class.connect_signal
            == class.after_control_lines(value).connect_signal,
{
}

/// A waiting task is let go exactly once for every rising edge of DTR.
pub proof fn lemma_one_wake_up_per_edge(class: CdcAcm, values: Seq<u16>)
    requires
        !class.connect_signal,
    ensures
        wake_ups(class, values) == rising_edges(class.line.dtr, values),
    decreases values.len(),
{
    if values.len() > 0 {
        let asked = class.after_control_lines(values[0]).after_wait();
        lemma_one_wake_up_per_edge(asked.0, values.skip(1));
    }
}

/// Asserting DTR lets a waiting task go once: asked again, it stays
/// suspended.  De-asserting DTR lets nobody go, and asserting it again
/// lets the task go a second time.
pub proof fn lemma_reassertion_wakes_again(class: CdcAcm, on: u16, off: u16)
    requires
        !class.connect_signal,
        !class.line.dtr,
        dtr_bit(on),
        !dtr_bit(off),
    ensures
        class.after_control_lines(on).after_wait().1,
        !class.after_control_lines(on).after_wait().0.after_wait().1,
        !class.after_control_lines(on).after_wait().0.after_control_lines(off).after_wait().1,
        class.after_control_lines(on).after_wait().0.after_control_lines(
            off,
        ).after_wait().0.after_control_lines(on).after_wait().1,
{
}

/// When the host asserts DTR while the serial task waits for a
/// connection, the task is let go within the same service step, and the
/// signal is used up.
pub proof fn lemma_connection_starts_task(system: SystemModel, raw: Seq<u8>, value: u16)
    requires
        control_quiet(system),
        system.task == TaskModel::AwaitingConnection,
        !system.class.line.dtr,
        SetupPacket::spec_parse(raw).spec_classify() == (ControlRequest::SetControlLineState {
            value,
        }),
        dtr_bit(value),
    ensures
        after_host_setup(system, raw).task == TaskModel::SendingGreeting,
        after_host_setup(system, raw).class.line.dtr,
        !after_host_setup(system, raw).class.connect_signal,
{
    let s0 = with_driver(system, system.driver.on_setup(raw));
    assert(s0.driver.next_flag() == Some(Flag::Setup));
    let s1 = s0.after_event();
    assert(s1.class.connect_signal);
    assert(s1.task == TaskModel::AwaitingConnection);
}

/// The serial task can take the next packet and send it back: the device
/// is configured, nothing waits to be handled, the task waits in a read
/// that was not aborted, and both bulk endpoints are empty.
pub open spec fn ready_to_echo(system: SystemModel) -> bool {
    &&& system.driver.attached
    &&& system.driver.flags == EventFlags::none()
    &&& system.driver.state == DeviceState::Configured
    &&& system.driver.bulk_out.slot == Slot::Empty
    &&& system.driver.bulk_in.slot == Slot::Empty
    &&& system.driver.bulk_in.max_packet_size == system.driver.bulk_out.max_packet_size
    &&& system.task == TaskModel::Reading
    &&& system.class.read != Suspension::Aborted
    &&& system.class.write != Suspension::Aborted
}

/// One step of a run, written out.
proof fn lemma_run_step(system: SystemModel, budget: nat)
    requires
        budget > 0,
    ensures
        system.run(budget) == if system.service_progress() {
            system.serviced().run((budget - 1) as nat)
        } else {
            (system.serviced(), true)
        },
{
}

/// First step of an echo: the packet that has arrived is read.
proof fn lemma_echo_reads(system: SystemModel, data: Seq<u8>)
    requires
        system.driver.attached,
        system.driver.flags == EventFlags::none().with(Flag::BulkOut, true),
        system.driver.state == DeviceState::Configured,
        system.driver.bulk_out.slot == Slot::Full,
        system.driver.bulk_out.buffer == data,
        system.task == TaskModel::Reading,
        system.class.read != Suspension::Aborted,
    ensures
        system.service_progress(),
        system.serviced().driver.attached,
        system.serviced().driver.flags == EventFlags::none(),
        system.serviced().driver.state == DeviceState::Configured,
        system.serviced().driver.bulk_out.slot == Slot::Empty,
        system.serviced().driver.bulk_in == system.driver.bulk_in,
        system.serviced().task == TaskModel::Echoing(data),
        system.serviced().class.read != Suspension::Aborted,
        system.serviced().class.write == system.class.write,
{
    assert(system.driver.next_flag() == Some(Flag::BulkOut));
}

/// Second step of an echo: the packet is handed to the bulk-IN
/// endpoint.
proof fn lemma_echo_writes(system: SystemModel, data: Seq<u8>)
    requires
        system.driver.attached,
        system.driver.flags == EventFlags::none(),
        system.driver.state == DeviceState::Configured,
        system.driver.bulk_out.slot == Slot::Empty,
        system.driver.bulk_in.slot == Slot::Empty,
        data.len() <= system.driver.bulk_in.max_packet_size,
        system.task == TaskModel::Echoing(data),
        system.class.read != Suspension::Aborted,
        system.class.write != Suspension::Aborted,
    ensures
        system.service_progress(),
        system.serviced().driver.attached,
        system.serviced().driver.flags == EventFlags::none(),
        system.serviced().driver.state == DeviceState::Configured,
        system.serviced().driver.bulk_out.slot == Slot::Empty,
        system.serviced().driver.bulk_in.held() == Some(data),
        system.serviced().task == TaskModel::Reading,
        system.serviced().class.read != Suspension::Aborted,
{
    assert(system.driver.next_flag() is None);
}

/// Last step of an echo: no further packet has arrived, so the read is
/// suspended.
proof fn lemma_echo_blocks(system: SystemModel)
    requires
        system.driver.attached,
        system.driver.flags == EventFlags::none(),
        system.driver.state == DeviceState::Configured,
        system.driver.bulk_out.slot == Slot::Empty,
        system.task == TaskModel::Reading,
        system.class.read != Suspension::Aborted,
    ensures
        !system.service_progress(),
        system.serviced().driver == system.driver,
        system.serviced().task == TaskModel::Reading,
{
    assert(system.driver.next_flag() is None);
}

/// Echo: a packet of at least one byte and at most one packet size that
/// the host sends with the expected toggle is, after one wake cycle, the
/// packet that the bulk-IN endpoint holds for the host, byte for byte.
/// The task is back in its read and the processor may sleep.
pub proof fn lemma_packet_is_echoed(system: SystemModel, toggle: bool, data: Seq<u8>, now_ms: u64)
    requires
        ready_to_echo(system),
        toggle == system.driver.bulk_out.toggle,
        1 <= data.len() <= system.driver.bulk_out.max_packet_size,
    ensures
        with_driver(system, system.driver.on_bulk_out(toggle, data)).after_wake_cycle(
            now_ms,
        ).driver.bulk_in_packet() == Some(data),
        with_driver(system, system.driver.on_bulk_out(toggle, data)).after_wake_cycle(
            now_ms,
        ).task == TaskModel::Reading,
        with_driver(system, system.driver.on_bulk_out(toggle, data)).sleep_after(now_ms)
            is UntilInterruptOr,
{
    let s0 = with_driver(system, system.driver.on_bulk_out(toggle, data));
    lemma_echo_reads(s0, data);
    let s1 = s0.serviced();
    lemma_echo_writes(s1, data);
    let s2 = s1.serviced();
    lemma_echo_blocks(s2);
    let s3 = s2.serviced();
    lemma_run_step(s0, SERVICE_BUDGET as nat);
    lemma_run_step(s1, (SERVICE_BUDGET - 1) as nat);
    lemma_run_step(s2, (SERVICE_BUDGET - 2) as nat);
    assert(s0.run(SERVICE_BUDGET as nat) == (s3, true));
}

/// First step of a delayed echo: the packet in flight blocks the write,
/// and the task stays suspended in it.
proof fn lemma_echo_waits(system: SystemModel, data: Seq<u8>)
    requires
        system.driver.attached,
        system.driver.flags == EventFlags::none(),
        system.driver.state == DeviceState::Configured,
        system.driver.bulk_in.slot == Slot::Full,
        data.len() <= system.driver.bulk_in.max_packet_size,
        system.task == TaskModel::Echoing(data),
        system.class.write != Suspension::Aborted,
    ensures
        !system.service_progress(),
        system.serviced().driver == system.driver,
        system.serviced().task == TaskModel::Echoing(data),
        system.serviced().class.write == Suspension::Suspended,
        system.serviced().class.read == system.class.read,
{
    assert(system.driver.next_flag() is None);
}

/// Echo behind a packet in flight, first half: when the host sends a
/// packet while the bulk-IN endpoint still holds an earlier one, the
/// wake cycle leaves the earlier packet in place and the task suspended
/// in the write of the new one.
pub proof fn lemma_echo_waits_for_packet_in_flight(
    system: SystemModel,
    toggle: bool,
    data: Seq<u8>,
    now_ms: u64,
)
    requires
        system.driver.attached,
        system.driver.flags == EventFlags::none(),
        system.driver.state == DeviceState::Configured,
        system.driver.bulk_out.slot == Slot::Empty,
        system.driver.bulk_in.slot == Slot::Full,
        system.driver.bulk_in.max_packet_size == system.driver.bulk_out.max_packet_size,
        system.task == TaskModel::Reading,
        system.class.read != Suspension::Aborted,
        system.class.write != Suspension::Aborted,
        toggle == system.driver.bulk_out.toggle,
        data.len() <= system.driver.bulk_out.max_packet_size,
    ensures
        with_driver(system, system.driver.on_bulk_out(toggle, data)).after_wake_cycle(now_ms).task
            == TaskModel::Echoing(data),
        with_driver(system, system.driver.on_bulk_out(toggle, data)).after_wake_cycle(
            now_ms,
        ).driver.bulk_in == system.driver.bulk_in,
        with_driver(system, system.driver.on_bulk_out(toggle, data)).after_wake_cycle(
            now_ms,
        ).driver.bulk_out.slot == Slot::Empty,
        with_driver(system, system.driver.on_bulk_out(toggle, data)).after_wake_cycle(
            now_ms,
        ).driver.flags == EventFlags::none(),
        with_driver(system, system.driver.on_bulk_out(toggle, data)).after_wake_cycle(
            now_ms,
        ).class.write == Suspension::Suspended,
        with_driver(system, system.driver.on_bulk_out(toggle, data)).after_wake_cycle(
            now_ms,
        ).class.read != Suspension::Aborted,
{
    let s0 = with_driver(system, system.driver.on_bulk_out(toggle, data));
    lemma_echo_reads(s0, data);
    let s1 = s0.serviced();
    lemma_echo_waits(s1, data);
    lemma_run_step(s0, SERVICE_BUDGET as nat);
    lemma_run_step(s1, (SERVICE_BUDGET - 1) as nat);
    assert(s0.run(SERVICE_BUDGET as nat) == (s1.serviced(), true));
}

/// Echo behind a packet in flight, second half: once the host has taken
/// the earlier packet, the next wake cycle puts the waiting one in its
/// place, byte for byte, and the task is back in its read.
pub proof fn lemma_waiting_echo_goes_out(system: SystemModel, data: Seq<u8>, now_ms: u64)
    requires
        system.driver.attached,
        system.driver.flags == EventFlags::none(),
        system.driver.state == DeviceState::Configured,
        system.driver.bulk_out.slot == Slot::Empty,
        system.driver.bulk_in.slot == Slot::Full,
        data.len() <= system.driver.bulk_in.max_packet_size,
        system.task == TaskModel::Echoing(data),
        system.class.read != Suspension::Aborted,
        system.class.write != Suspension::Aborted,
    ensures
        with_driver(system, system.driver.on_bulk_in()).after_wake_cycle(
            now_ms,
        ).driver.bulk_in_packet() == Some(data),
        with_driver(system, system.driver.on_bulk_in()).after_wake_cycle(now_ms).task
            == TaskModel::Reading,
{
    let t0 = with_driver(system, system.driver.on_bulk_in());
    lemma_echo_resumes(t0, data);
    let t1 = t0.serviced();
    lemma_echo_blocks(t1);
    lemma_run_step(t0, SERVICE_BUDGET as nat);
    lemma_run_step(t1, (SERVICE_BUDGET - 1) as nat);
    assert(t0.run(SERVICE_BUDGET as nat) == (t1.serviced(), true));
}

/// Second step of a delayed echo: once the endpoint is free the waiting
/// packet goes out.
proof fn lemma_echo_resumes(system: SystemModel, data: Seq<u8>)
    requires
        system.driver.attached,
        system.driver.flags == EventFlags::none().with(Flag::BulkIn, true),
        system.driver.state == DeviceState::Configured,
        system.driver.bulk_out.slot == Slot::Empty,
        system.driver.bulk_in.slot == Slot::Empty,
        data.len() <= system.driver.bulk_in.max_packet_size,
        system.task == TaskModel::Echoing(data),
        system.class.read != Suspension::Aborted,
        system.class.write != Suspension::Aborted,
    ensures
        system.service_progress(),
        system.serviced().driver.attached,
        system.serviced().driver.flags == EventFlags::none(),
        system.serviced().driver.state == DeviceState::Configured,
        system.serviced().driver.bulk_out.slot == Slot::Empty,
        system.serviced().driver.bulk_in.held() == Some(data),
        system.serviced().task == TaskModel::Reading,
        system.serviced().class.read != Suspension::Aborted,
{
    assert(system.driver.next_flag() == Some(Flag::BulkIn));
}

/// Greeting: when the host asserts DTR while the configured device waits
/// for a connection, the wake cycle hands the greeting to the bulk-IN
/// endpoint, provided one packet can hold it, and the task goes on to
/// read.
#[verifier::rlimit(30)]
pub proof fn lemma_connection_is_greeted(system: SystemModel, raw: Seq<u8>, value: u16, now_ms: u64)
    requires
        control_quiet(system),
        system.driver.flags == EventFlags::none(),
        system.driver.state == DeviceState::Configured,
        system.driver.bulk_out.slot == Slot::Empty,
        system.driver.bulk_in.slot == Slot::Empty,
        greeting().len() <= system.driver.bulk_in.max_packet_size,
        system.task == TaskModel::AwaitingConnection,
        system.class.read != Suspension::Aborted,
        system.class.write != Suspension::Aborted,
        !system.class.line.dtr,
        SetupPacket::spec_parse(raw).spec_classify() == (ControlRequest::SetControlLineState {
            value,
        }),
        dtr_bit(value),
    ensures
        with_driver(system, system.driver.on_setup(raw)).after_wake_cycle(
            now_ms,
        ).driver.bulk_in_packet() == Some(greeting()),
        with_driver(system, system.driver.on_setup(raw)).after_wake_cycle(now_ms).task
            == TaskModel::Reading,
        with_driver(system, system.driver.on_setup(raw)).after_wake_cycle(
            now_ms,
        ).driver.control_answer() == ControlAnswer::Accepted,
{
    let s0 = with_driver(system, system.driver.on_setup(raw));
    lemma_greeting_is_due(system, raw, value);
    let s1 = s0.serviced();
    lemma_greeting_goes_out(s1);
    let s2 = s1.serviced();
    lemma_echo_blocks(s2);
    lemma_run_step(s0, SERVICE_BUDGET as nat);
    lemma_run_step(s1, (SERVICE_BUDGET - 1) as nat);
    lemma_run_step(s2, (SERVICE_BUDGET - 2) as nat);
    assert(s0.run(SERVICE_BUDGET as nat) == (s2.serviced(), true));
}

/// First step of a greeting: the request is answered and the task is
/// let go.
proof fn lemma_greeting_is_due(system: SystemModel, raw: Seq<u8>, value: u16)
    requires
        control_quiet(system),
        system.driver.flags == EventFlags::none(),
        system.task == TaskModel::AwaitingConnection,
        !system.class.line.dtr,
        SetupPacket::spec_parse(raw).spec_classify() == (ControlRequest::SetControlLineState {
            value,
        }),
        dtr_bit(value),
    ensures
        with_driver(system, system.driver.on_setup(raw)).service_progress(),
        after_host_setup(system, raw).task == TaskModel::SendingGreeting,
        after_host_setup(system, raw).driver.attached,
        after_host_setup(system, raw).driver.flags == EventFlags::none(),
        after_host_setup(system, raw).driver.state == system.driver.state,
        after_host_setup(system, raw).driver.bulk_out == system.driver.bulk_out,
        after_host_setup(system, raw).driver.bulk_in == system.driver.bulk_in,
        after_host_setup(system, raw).driver.control_phase == ControlPhase::Accepted,
        after_host_setup(system, raw).class.read == system.class.read,
        after_host_setup(system, raw).class.write == system.class.write,
{
    let s0 = with_driver(system, system.driver.on_setup(raw));
    assert(s0.driver.next_flag() == Some(Flag::Setup));
    let s1 = s0.after_event();
    assert(s1.class.connect_signal);
    assert(s1.task == TaskModel::AwaitingConnection);
}

/// Second step of a greeting: the greeting is handed to the bulk-IN
/// endpoint.
proof fn lemma_greeting_goes_out(system: SystemModel)
    requires
        system.driver.attached,
        system.driver.flags == EventFlags::none(),
        system.driver.state == DeviceState::Configured,
        system.driver.bulk_out.slot == Slot::Empty,
        system.driver.bulk_in.slot == Slot::Empty,
        greeting().len() <= system.driver.bulk_in.max_packet_size,
        system.task == TaskModel::SendingGreeting,
        system.class.read != Suspension::Aborted,
        system.class.write != Suspension::Aborted,
    ensures
        system.service_progress(),
        system.serviced().driver.attached,
        system.serviced().driver.flags == EventFlags::none(),
        system.serviced().driver.state == DeviceState::Configured,
        system.serviced().driver.bulk_out.slot == Slot::Empty,
        system.serviced().driver.bulk_in.held() == Some(greeting()),
        system.serviced().driver.control_phase == system.driver.control_phase,
        system.serviced().task == TaskModel::Reading,
        system.serviced().class.read != Suspension::Aborted,
{
    assert(system.driver.next_flag() is None);
}

/// Disconnection: when the host resets the bus while the serial task is
/// suspended in a read, the next service step ends that read with
/// `Disconnected` and the task waits for a connection again.
pub proof fn lemma_reset_ends_suspended_read(system: SystemModel)
    requires
        system.driver.attached,
        system.task == TaskModel::Reading,
        system.class.read == Suspension::Suspended,
    ensures
        ({
            let handled = with_driver(system, system.driver.on_reset()).after_event();
            handled.class.after_read(handled.driver).result
        }) == Some(Err::<Seq<u8>, UsbError>(UsbError::Disconnected)),
        with_driver(system, system.driver.on_reset()).serviced().task
            == TaskModel::AwaitingConnection,
        with_driver(system, system.driver.on_reset()).serviced().driver.state
            == DeviceState::Default,
        with_driver(system, system.driver.on_reset()).service_progress(),
{
    let s0 = with_driver(system, system.driver.on_reset());
    assert(s0.driver.next_flag() == Some(Flag::Reset));
}

/// The same for a write: a reset while the serial task is suspended in a
/// write ends that write with `Disconnected`.
pub proof fn lemma_reset_ends_suspended_write(system: SystemModel)
    requires
        system.driver.attached,
        system.task.operation() == Operation::Write,
        system.class.write == Suspension::Suspended,
    ensures
        ({
            let handled = with_driver(system, system.driver.on_reset()).after_event();
            handled.class.after_write(handled.driver, handled.task.outgoing()).result
        }) == Some(Err::<(), UsbError>(UsbError::Disconnected)),
        with_driver(system, system.driver.on_reset()).serviced().task
            == TaskModel::AwaitingConnection,
{
    let s0 = with_driver(system, system.driver.on_reset());
    assert(s0.driver.next_flag() == Some(Flag::Reset));
}

/// A repeated packet is not echoed: with it the wake cycle ends as it
/// would have ended without it.
pub proof fn lemma_repeated_packet_is_not_echoed(
    system: SystemModel,
    toggle: bool,
    data: Seq<u8>,
    now_ms: u64,
)
    requires
        toggle != system.driver.bulk_out.toggle,
    ensures
        with_driver(system, system.driver.on_bulk_out(toggle, data)).after_wake_cycle(now_ms)
            == system.after_wake_cycle(now_ms),
{
    lemma_repeated_packet_is_dropped(system.driver, toggle, data);
    assert(with_driver(system, system.driver.on_bulk_out(toggle, data)) == system);
}

/// The serial task does not touch the light or the write-protect pin:
/// a service step leaves both as they are.
pub proof fn lemma_service_keeps_pins(system: SystemModel)
    ensures
        system.serviced().led == system.led,
        system.serviced().write_protect == system.write_protect,
        system.serviced().config == system.config,
{
}

/// Whatever the serial task has to do, a wake cycle polls the light
/// task: the light changes at its deadline and the write-protect pin
/// stays as it is.
pub proof fn lemma_wake_cycle_polls_light(system: SystemModel, now_ms: u64)
    ensures
        system.after_wake_cycle(now_ms).led == system.led.polled(now_ms),
        system.after_wake_cycle(now_ms).write_protect == system.write_protect,
{
    lemma_run_keeps_pins(system, SERVICE_BUDGET as nat);
}

/// Running the serial task leaves the light and the write-protect pin
/// as they are.
pub proof fn lemma_run_keeps_pins(system: SystemModel, budget: nat)
    ensures
        system.run(budget).0.led == system.led,
        system.run(budget).0.write_protect == system.write_protect,
    decreases budget,
{
    lemma_service_keeps_pins(system);
    if budget > 0 && system.service_progress() {
        lemma_run_keeps_pins(system.serviced(), (budget - 1) as nat);
    }
}

/// The interrupt side changes the driver only together with a flag:
/// whatever the host does either leaves the driver as it was or leaves
/// the flag of that event raised.  No change goes unreported.
pub proof fn lemma_interrupts_always_flag(
    driver: DriverModel,
    raw: Seq<u8>,
    toggle: bool,
    data: Seq<u8>,
    power: Flag,
)
    ensures
        driver.on_reset() == driver || driver.on_reset().flags.reset,
        driver.on_setup(raw) == driver || driver.on_setup(raw).flags.setup,
        driver.on_control_out(data) == driver || driver.on_control_out(data).flags.control_out,
        driver.on_control_in() == driver || driver.on_control_in().flags.control_in,
        driver.on_bulk_out(toggle, data) == driver || driver.on_bulk_out(
            toggle,
            data,
        ).flags.bulk_out,
        driver.on_bulk_in() == driver || driver.on_bulk_in().flags.bulk_in,
        driver.on_power(power) == driver || driver.on_power(power).flags.is_set(power),
{
}

/// A pending reset is reported before everything else, and a pending
/// SETUP packet before everything but a reset.
pub proof fn lemma_reset_and_setup_come_first(driver: DriverModel)
    ensures
        driver.flags.reset ==> driver.next_flag() == Some(Flag::Reset),
        !driver.flags.reset && driver.flags.setup ==> driver.next_flag() == Some(Flag::Setup),
        driver.next_flag() is None <==> driver.flags == EventFlags::none(),
{
}

/// A service step that gets nothing done leaves the serial task
/// blocked: the step after it gets nothing done either and changes
/// nothing.
pub proof fn lemma_blocked_stays_blocked(system: SystemModel)
    requires
        !system.service_progress(),
    ensures
        !system.serviced().service_progress(),
        system.serviced().serviced() == system.serviced(),
{
    assert(system.after_event() == system);
    lemma_suspended_task_waits(system);
    assert(system.serviced().after_event() == system.serviced());
}

/// A task whose operation cannot complete is left suspended on it, with
/// the driver untouched; trying again changes nothing.
proof fn lemma_suspended_task_waits(system: SystemModel)
    requires
        !system.task_ready(),
    ensures
        system.after_task().driver == system.driver,
        system.after_task().task == system.task,
        !system.after_task().task_ready(),
        system.after_task().after_task() == system.after_task(),
{
    match system.task.operation() {
        Operation::WaitConnection => {},
        Operation::Write => {
            let outcome = system.class.after_write(system.driver, system.task.outgoing());
            assert(outcome.result is None);
            assert(outcome.driver == system.driver);
        },
        Operation::Read => {
            let outcome = system.class.after_read(system.driver);
            assert(outcome.result is None);
            assert(outcome.driver == system.driver);
        },
    }
}

/// When a wake cycle lets the processor sleep, the serial task is
/// blocked: nothing it could do is left undone.
pub proof fn lemma_sleep_only_when_blocked(system: SystemModel, budget: nat)
    ensures
        system.run(budget).1 ==> !system.run(budget).0.service_progress(),
    decreases budget,
{
    if budget > 0 {
        if system.service_progress() {
            lemma_sleep_only_when_blocked(system.serviced(), (budget - 1) as nat);
        } else {
            lemma_blocked_stays_blocked(system);
        }
    }
}

/// Both tasks run in every wake cycle: the serial task gets at least one
/// service step, and the light task is polled after it.
pub proof fn lemma_both_tasks_run(system: SystemModel, now_ms: u64)
    ensures
        system.run(SERVICE_BUDGET as nat) == if system.service_progress() {
            system.serviced().run((SERVICE_BUDGET - 1) as nat)
        } else {
            (system.serviced(), true)
        },
        system.after_wake_cycle(now_ms).led == system.led.polled(now_ms),
{
    lemma_run_keeps_pins(system, SERVICE_BUDGET as nat);
}

/// The deadline that a wake cycle hands to the processor is the time at
/// which the light changes next.
pub proof fn lemma_sleep_ends_at_light_deadline(system: SystemModel, now_ms: u64)
    ensures
        system.sleep_after(now_ms) matches Sleep::UntilInterruptOr { deadline_ms } ==> deadline_ms
            == system.led.polled(now_ms).deadline_ms,
{
    lemma_run_keeps_pins(system, SERVICE_BUDGET as nat);
}

/// A request that is stalled is invisible to the task: the line state,
/// the connection signal and the suspended operations are as they were,
/// and so are the bulk endpoints and the state of the device.
pub proof fn lemma_stall_is_invisible(
    class: CdcAcm,
    driver: DriverModel,
    config: ConfigModel,
    setup: SetupPacket,
)
    requires
        setup.spec_classify() == ControlRequest::Unsupported,
    ensures
        class.after_request(driver, config, setup).result == Err::<(), UsbError>(
            UsbError::ProtocolStall,
        ),
        class.after_request(driver, config, setup).class.line == class.line,
        class.after_request(driver, config, setup).class.connect_signal == class.connect_signal,
        class.after_request(driver, config, setup).class.read == class.read,
        class.after_request(driver, config, setup).class.write == class.write,
        class.after_request(driver, config, setup).driver.state == driver.state,
        class.after_request(driver, config, setup).driver.bulk_out == driver.bulk_out,
        class.after_request(driver, config, setup).driver.bulk_in == driver.bulk_in,
        driver.control_open() ==> class.after_request(driver, config, setup).driver.control_answer()
            == ControlAnswer::Stalled,
{
}

/// No error ends the serial task: whatever the error, a failed read or
/// write sends the task back to waiting for a connection.
pub proof fn lemma_errors_restart_task(task: TaskModel, error: UsbError)
    ensures
        task.operation() == Operation::Write ==> task.written(Err(error))
            == TaskModel::AwaitingConnection,
        task.operation() == Operation::Read ==> task.received(Err(error))
            == TaskModel::AwaitingConnection,
        task.operation() == Operation::WaitConnection ==> task.connected().operation()
            == Operation::Write && task.connected().outgoing() == greeting(),
{
}

/// The state of the device changes only through bus events: handling an
/// event changes it only for a SET_ADDRESS or SET_CONFIGURATION request,
/// and the reads and writes of a task never change it.
pub proof fn lemma_state_follows_bus_events(
    class: CdcAcm,
    driver: DriverModel,
    config: ConfigModel,
    event: EventModel,
    data: Seq<u8>,
)
    ensures
        class.after_event(driver, config, event).driver.state != driver.state ==> (event matches EventModel::Setup(
            raw,
        ) && (SetupPacket::spec_parse(raw).spec_classify() is SetAddress || SetupPacket::spec_parse(
            raw,
        ).spec_classify() is SetConfiguration)),
        class.after_read(driver).driver.state == driver.state,
        class.after_write(driver, data).driver.state == driver.state,
        class.after_read(driver).driver.address == driver.address,
        class.after_write(driver, data).driver.address == driver.address,
{
}

/// Every step of the driver keeps it well formed.
pub proof fn lemma_driver_stays_well_formed(
    driver: DriverModel,
    raw: Seq<u8>,
    toggle: bool,
    data: Seq<u8>,
    address: u8,
    endpoint: u8,
    power: Flag,
)
    requires
        driver.wf(),
        raw.len() == 8,
    ensures
        driver.initialized().wf(),
        driver.after_reset().wf(),
        driver.polled().wf(),
        driver.with_address(address).wf(),
        driver.configured().wf(),
        driver.deconfigured().wf(),
        driver.after_read(endpoint).wf(),
        driver.after_write(endpoint, data).wf(),
        driver.control_released().wf(),
        driver.on_reset().wf(),
        driver.on_setup(raw).wf(),
        driver.on_control_out(data).wf(),
        driver.on_control_in().wf(),
        driver.on_bulk_out(toggle, data).wf(),
        driver.on_bulk_in().wf(),
        driver.on_power(power).wf(),
{
}

/// Answering a control request keeps the driver well formed.
proof fn lemma_answers_keep_well_formed(class: CdcAcm, driver: DriverModel, data: Seq<u8>)
    requires
        driver.wf(),
    ensures
        class.stalled(driver).driver.wf(),
        class.accepted(driver).driver.wf(),
        class.replied(driver, data).driver.wf(),
        driver.with_control(ControlPhase::AwaitingData, Seq::empty()).wf(),
{
}

/// Handling a control request keeps the driver well formed.
#[verifier::rlimit(30)]
proof fn lemma_request_keeps_well_formed(
    class: CdcAcm,
    driver: DriverModel,
    config: ConfigModel,
    setup: SetupPacket,
)
    requires
        driver.wf(),
    ensures
        class.after_request(driver, config, setup).driver.wf(),
{
    lemma_answers_keep_well_formed(class, driver, Seq::empty());
    match setup.spec_classify() {
        ControlRequest::GetDescriptor { kind, index, length } => {
            if config.descriptor(kind, index) is Some {
                lemma_answers_keep_well_formed(
                    class,
                    driver,
                    truncated(config.descriptor(kind, index)->0, length),
                );
            }
        },
        ControlRequest::SetAddress { address } => {
            lemma_answers_keep_well_formed(class, driver.with_address(address), Seq::empty());
        },
        ControlRequest::SetConfiguration { configured } => {
            lemma_answers_keep_well_formed(class, driver.configured(), Seq::empty());
            lemma_answers_keep_well_formed(class, driver.deconfigured(), Seq::empty());
        },
        ControlRequest::SetLineCoding => {},
        ControlRequest::GetLineCoding => {
            lemma_answers_keep_well_formed(class, driver, class.line.coding.spec_encode());
        },
        ControlRequest::SetControlLineState { value } => {
            lemma_answers_keep_well_formed(
                class.after_control_lines(value),
                driver,
                Seq::empty(),
            );
        },
        ControlRequest::Unsupported => {},
    }
}

/// Handling the data stage of a control write keeps the driver well
/// formed.
proof fn lemma_control_data_keeps_well_formed(class: CdcAcm, driver: DriverModel)
    requires
        driver.wf(),
    ensures
        class.after_control_data(driver).driver.wf(),
{
    assert(driver.control_released().wf());
    lemma_answers_keep_well_formed(class, driver.control_released(), Seq::empty());
    if driver.control_held() is Some && LineCoding::spec_decode(driver.control_held()->0) is Some {
        let coding = LineCoding::spec_decode(driver.control_held()->0)->0;
        lemma_answers_keep_well_formed(
            CdcAcm { line: class.line.with_coding(coding), ..class },
            driver.control_released(),
            Seq::empty(),
        );
    }
}

/// Handling an event keeps the driver well formed.
pub proof fn lemma_event_keeps_driver_well_formed(
    class: CdcAcm,
    driver: DriverModel,
    config: ConfigModel,
    event: EventModel,
)
    requires
        driver.wf(),
    ensures
        class.after_event(driver, config, event).driver.wf(),
{
    match event {
        EventModel::Setup(raw) => {
            lemma_request_keeps_well_formed(class, driver, config, SetupPacket::spec_parse(raw));
        },
        EventModel::EndpointComplete(endpoint, direction) => {
            lemma_control_data_keeps_well_formed(class, driver);
        },
        _ => {},
    }
}

/// A service step keeps the firmware well formed.
pub proof fn lemma_service_keeps_well_formed(system: SystemModel)
    requires
        system.wf(),
    ensures
        system.after_event().wf(),
        system.serviced().wf(),
{
    if system.driver.next_event() is Some {
        assert(system.driver.polled().wf());
        lemma_event_keeps_driver_well_formed(
            system.class,
            system.driver.polled(),
            system.config,
            system.driver.next_event()->0,
        );
        lemma_event_keeps_sizes(
            system.class,
            system.driver.polled(),
            system.config,
            system.driver.next_event()->0,
        );
    }
    lemma_task_keeps_well_formed(system.after_event());
}

/// A try of the serial task keeps the firmware well formed.
proof fn lemma_task_keeps_well_formed(system: SystemModel)
    requires
        system.wf(),
    ensures
        system.after_task().wf(),
{
    let data = system.task.outgoing();
    assert(system.driver.after_read(BULK_ENDPOINT).wf());
    assert(system.driver.after_write(BULK_ENDPOINT, data).wf());
}

/// A run of the serial task keeps the firmware well formed.
pub proof fn lemma_run_keeps_well_formed(system: SystemModel, budget: nat)
    requires
        system.wf(),
    ensures
        system.run(budget).0.wf(),
    decreases budget,
{
    lemma_service_keeps_well_formed(system);
    if budget > 0 && system.service_progress() {
        lemma_run_keeps_well_formed(system.serviced(), (budget - 1) as nat);
    }
}

/// The firmware stays well formed through every wake cycle.  In
/// particular the write-protect pin is high for as long as the firmware
/// runs.
pub proof fn lemma_wake_cycle_keeps_well_formed(system: SystemModel, now_ms: u64)
    requires
        system.wf(),
    ensures
        system.after_wake_cycle(now_ms).wf(),
        system.after_wake_cycle(now_ms).write_protect,
{
    lemma_run_keeps_well_formed(system, SERVICE_BUDGET as nat);
}

/// A stall never reaches a task: no read and no write of a task ends
/// with `ProtocolStall`.
pub proof fn lemma_stall_never_reaches_task(class: CdcAcm, driver: DriverModel, data: Seq<u8>)
    ensures
        class.after_read(driver).result matches Some(Err(e)) ==> e.reaches_task(),
        class.after_write(driver, data).result matches Some(Err(e)) ==> e.reaches_task(),
{
}

} // verus!
