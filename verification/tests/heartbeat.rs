use rithmic_api::heartbeat::{
    heartbeat_frame, next_deadline, on_wake, HeartbeatAction, HEARTBEAT_REQUEST, SAFETY_MARGIN_MS,
};
use rithmic_api::inbound::handle_received_responses;
use rithmic_api::plants::SysInfraType;

#[test]
fn margin_is_half_a_second() {
    assert_eq!(SAFETY_MARGIN_MS, 500);
}

#[test]
fn deadline_is_interval_less_margin() {
    assert_eq!(next_deadline(10_000, 60), 69_500);
    assert_eq!(next_deadline(0, 1), 500);
    assert_eq!(next_deadline(1_000, 0), 500);
}

#[test]
fn deadline_stays_within_the_clock() {
    assert_eq!(next_deadline(0, 0), 0);
    assert_eq!(next_deadline(499, 0), 0);
    assert_eq!(next_deadline(500, 0), 0);
    assert_eq!(next_deadline(u64::MAX, 1), u64::MAX);
    assert_eq!(next_deadline(u64::MAX, u64::MAX), u64::MAX);
    assert_eq!(next_deadline(u64::MAX - 499, 1), u64::MAX);
    assert_eq!(next_deadline(u64::MAX - 500, 1), u64::MAX);
    assert_eq!(next_deadline(u64::MAX - 501, 1), u64::MAX - 1);
    assert_eq!(next_deadline(u64::MAX, 0), u64::MAX - 500);
}

#[test]
fn wake_before_deadline_sleeps_on() {
    assert_eq!(on_wake(10_000, 60, 69_499, 7), HeartbeatAction::SleepUntil(69_500));
    assert_eq!(on_wake(10_000, 60, 10_000, 7), HeartbeatAction::SleepUntil(69_500));
    assert_eq!(on_wake(10_000, 60, 0, 7), HeartbeatAction::SleepUntil(69_500));
}

#[test]
fn wake_at_or_after_deadline_transmits() {
    assert_eq!(on_wake(10_000, 60, 69_500, 7), HeartbeatAction::Transmit(7));
    assert_eq!(on_wake(10_000, 60, 69_501, 7), HeartbeatAction::Transmit(7));
    assert_eq!(on_wake(10_000, 60, u64::MAX, 9), HeartbeatAction::Transmit(9));
}

#[test]
fn traffic_puts_the_heartbeat_off() {
    // The activity went to sleep for a deadline of 69_500. A frame went out
    // at 40_000; the wake-up at 69_500 sends nothing and moves to 99_500.
    assert_eq!(on_wake(40_000, 60, 69_500, 1), HeartbeatAction::SleepUntil(99_500));
    assert_eq!(on_wake(40_000, 60, 99_499, 1), HeartbeatAction::SleepUntil(99_500));
    assert_eq!(on_wake(40_000, 60, 99_500, 1), HeartbeatAction::Transmit(1));
}

#[test]
fn zero_interval_is_always_due() {
    assert_eq!(on_wake(1_000, 0, 1_000, 3), HeartbeatAction::Transmit(3));
    assert_eq!(on_wake(1_000, 0, 500, 3), HeartbeatAction::Transmit(3));
    assert_eq!(on_wake(1_000, 0, 499, 3), HeartbeatAction::SleepUntil(500));
}

#[test]
fn far_deadline_is_never_due_early() {
    assert_eq!(on_wake(u64::MAX, 10, u64::MAX, 3), HeartbeatAction::SleepUntil(u64::MAX));
    assert_eq!(
        on_wake(5, u64::MAX, u64::MAX, 3),
        HeartbeatAction::SleepUntil(u64::MAX)
    );
}

#[test]
fn heartbeat_frame_is_the_framed_request() {
    assert_eq!(HEARTBEAT_REQUEST, 18);
    let frame = heartbeat_frame();
    assert_eq!(frame, vec![0, 0, 0, 4, 0x98, 0xB6, 0x4B, 0x12]);
    let mut request = Vec::new();
    prost::encoding::int32::encode(154467, &18, &mut request);
    assert_eq!(&frame[4..], &request[..]);
    let received = handle_received_responses(SysInfraType::TickerPlant, &frame).unwrap();
    assert_eq!(received.template_id, Some(18));
    assert_eq!(received.message, None);
}
