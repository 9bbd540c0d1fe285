use crate::framing::{frame, frame_payload, lemma_frame_round_trip, payload};
use crate::wire::{encode_template_id, lemma_template_only_is_short, template_id, template_only};
use vstd::prelude::*;

verus! {

/// The template id of a heartbeat request.
pub const HEARTBEAT_REQUEST: i32 = 18;

/// How long before the interval runs out a heartbeat is sent, in
/// milliseconds. The margin keeps the heartbeat clear of the server's own
/// timeout.
pub const SAFETY_MARGIN_MS: u64 = 500;

/// What the heartbeat activity of a plant does next.
#[derive(Clone, Copy, Debug, PartialEq, Eq, Structural)]
pub enum HeartbeatAction {
    /// Sleep until the given time, then ask again. Nothing is sent.
    SleepUntil(u64),
    /// Send one heartbeat on the given write half, then report how it went.
    Transmit(u64),
    /// The activity is over for good.
    Stop,
}

/// The moment at which a plant that last sent at `last_activity` needs its
/// next heartbeat: one interval later, less the safety margin. Times are
/// milliseconds, the interval is in seconds; the result stays within the
/// clock's range.
pub open spec fn deadline(last_activity: u64, interval_secs: u64) -> u64 {
    let due = last_activity + interval_secs * 1000 - SAFETY_MARGIN_MS;
    if due < 0 {
        0
    } else if due > u64::MAX {
        u64::MAX
    } else {
        due as u64
    }
}

/// Whether a heartbeat is due at `now`: it is once a full interval, less the
/// safety margin, has passed since the last traffic.
pub open spec fn is_due(last_activity: u64, interval_secs: u64, now: u64) -> bool {
    now >= last_activity + interval_secs * 1000 - SAFETY_MARGIN_MS
}

/// Computes the moment of the next heartbeat.
pub fn next_deadline(last_activity: u64, interval_secs: u64) -> (due: u64)
    ensures
        due == deadline(last_activity, interval_secs),
{
    let sum: u128 = last_activity as u128 + interval_secs as u128 * 1000;
    if sum < SAFETY_MARGIN_MS as u128 {
        0
    } else if sum - SAFETY_MARGIN_MS as u128 > u64::MAX as u128 {
        u64::MAX
    } else {
        (sum - SAFETY_MARGIN_MS as u128) as u64
    }
}

/// Decides what an activity that woke at `now` does: it sends on `writer`
/// when the heartbeat is due, and otherwise goes back to sleep until the
/// deadline that the latest traffic sets.
pub fn on_wake(last_activity: u64, interval_secs: u64, now: u64, writer: u64) -> (action:
    HeartbeatAction)
    ensures
        action == (if is_due(last_activity, interval_secs, now) {
            HeartbeatAction::Transmit(writer)
        } else {
            HeartbeatAction::SleepUntil(deadline(last_activity, interval_secs))
        }),
{
    let due: u128 = last_activity as u128 + interval_secs as u128 * 1000;
    if now as u128 + SAFETY_MARGIN_MS as u128 >= due {
        HeartbeatAction::Transmit(writer)
    } else {
        HeartbeatAction::SleepUntil(next_deadline(last_activity, interval_secs))
    }
}

/// Builds the frame that carries a heartbeat request: a message with the
/// heartbeat's template id and no other field, behind its length header.
pub fn heartbeat_frame() -> (framed: Vec<u8>)
    ensures
        framed@ == frame(template_only(HEARTBEAT_REQUEST)),
        payload(framed@) == template_only(HEARTBEAT_REQUEST),
        template_id(payload(framed@)) == Some(HEARTBEAT_REQUEST),
{
    let request = encode_template_id(HEARTBEAT_REQUEST);
    proof {
        lemma_template_only_is_short(HEARTBEAT_REQUEST);
        lemma_frame_round_trip(request@);
    }
    frame_payload(request.as_slice())
}

/// Later traffic never brings the next heartbeat forward.
pub proof fn lemma_deadline_monotonic(earlier: u64, later: u64, interval_secs: u64)
    requires
        earlier <= later,
    ensures
        deadline(earlier, interval_secs) <= deadline(later, interval_secs),
{
}

/// Heartbeat suppression: after traffic at `sent_at`, an activity that wakes
/// before `sent_at + interval - margin` sends nothing and sleeps on until
/// that moment, whatever deadline it went to sleep with.
pub proof fn lemma_traffic_suppresses_heartbeat(sent_at: u64, interval_secs: u64, now: u64)
    requires
        now < sent_at + interval_secs * 1000 - SAFETY_MARGIN_MS,
    ensures
        !is_due(sent_at, interval_secs, now),
        deadline(sent_at, interval_secs) >= now,
        sent_at + interval_secs * 1000 - SAFETY_MARGIN_MS <= u64::MAX ==> deadline(
            sent_at,
            interval_secs,
        ) == sent_at + interval_secs * 1000 - SAFETY_MARGIN_MS,
{
}

/// Once a heartbeat is due it stays due: the activity cannot miss it by
/// waking late.
pub proof fn lemma_due_stays_due(last_activity: u64, interval_secs: u64, now: u64, later: u64)
    requires
        is_due(last_activity, interval_secs, now),
        now <= later,
    ensures
        is_due(last_activity, interval_secs, later),
{
}

} // verus!
