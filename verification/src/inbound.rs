use crate::errors::RithmicApiError;
use crate::framing::{decode_frame, is_whole_frame, payload};
use crate::messages::{is_message_of, message_for, MessageType};
use crate::plants::SysInfraType;
use crate::wire::{extract_template_id, template_id};
use vstd::prelude::*;

verus! {

/// One binary message as it came in on a plant: the payload of its frame,
/// the template id found in the payload, and the message type that the
/// plant announces with that id.
#[derive(Debug)]
pub struct Received<'a> {
    pub payload: &'a [u8],
    pub template_id: Option<i32>,
    pub message: Option<MessageType>,
}

/// `received` is what the plant's inbound side makes of the whole frame
/// `data`. A payload without a template id, or with one that the plant does
/// not list, has no message type and is to be skipped.
pub open spec fn is_reading_of(plant: SysInfraType, data: Seq<u8>, received: Received) -> bool {
    &&& received.payload@ == payload(data)
    &&& received.template_id == template_id(payload(data))
    &&& match received.template_id {
        Some(id) => is_message_of(plant, id, received.message),
        None => received.message is None,
    }
}

/// Takes one binary message that arrived on the plant apart. A frame that is
/// not whole is a framing error; it costs this message only, the next one is
/// read as usual.
pub fn handle_received_responses<'a>(plant: SysInfraType, data: &'a [u8]) -> (r: Result<
    Received<'a>,
    RithmicApiError,
>)
    ensures
        match r {
            Ok(received) => is_whole_frame(data@) && is_reading_of(plant, data@, received),
            Err(error) => !is_whole_frame(data@) && error is Io,
        },
{
    let payload = decode_frame(data)?;
    let template_id = extract_template_id(payload);
    let message = match template_id {
        Some(id) => message_for(plant, id),
        None => None,
    };
    Ok(Received { payload, template_id, message })
}

/// What the reader of a plant's inbound stream came back with.
#[derive(Debug)]
pub enum InboundEvent<'a> {
    /// A binary message, with its bytes.
    Binary(&'a [u8]),
    /// A message of another kind: text, ping, pong, close or a raw frame.
    Other,
    /// The transport failed to read.
    Failed(String),
    /// The stream has ended.
    Ended,
}

/// What the inbound loop of a plant does with what the reader came back
/// with.
#[derive(Debug)]
pub enum InboundAction<'a> {
    /// Hand the message on: offer its frame to the plant's subscribers and
    /// decode the payload as the message type named.
    Dispatch(Received<'a>),
    /// Leave the item aside and read the next one.
    Skip,
    /// End the loop. Nothing more is read, nothing is sent, and nothing is
    /// reported to the caller, who has long gone on.
    Stop,
}

/// Whether the event ends the inbound loop: a read failure does, and so does
/// the end of the stream.
pub open spec fn ends_loop(event: InboundEvent) -> bool {
    event is Failed || event is Ended
}

/// `action` is what the inbound loop of the plant does on `event`. A whole
/// frame is dispatched. A frame that is not whole costs that message only. A
/// message of another kind is left aside. A read failure and the end of the
/// stream end the loop.
pub open spec fn is_inbound_action_for(
    plant: SysInfraType,
    event: InboundEvent,
    action: InboundAction,
) -> bool {
    match event {
        InboundEvent::Binary(data) => if is_whole_frame(data@) {
            action matches InboundAction::Dispatch(received) && is_reading_of(
                plant,
                data@,
                received,
            )
        } else {
            action is Skip
        },
        InboundEvent::Other => action is Skip,
        InboundEvent::Failed(_) => action is Stop,
        InboundEvent::Ended => action is Stop,
    }
}

/// Decides what the inbound loop of the plant does with what its reader came
/// back with.
pub fn inbound_step<'a>(plant: SysInfraType, event: InboundEvent<'a>) -> (action: InboundAction<
    'a,
>)
    ensures
        is_inbound_action_for(plant, event, action),
{
    match event {
        InboundEvent::Binary(data) => match handle_received_responses(plant, data) {
            Ok(received) => InboundAction::Dispatch(received),
            Err(_) => InboundAction::Skip,
        },
        InboundEvent::Other => InboundAction::Skip,
        InboundEvent::Failed(_) => InboundAction::Stop,
        InboundEvent::Ended => InboundAction::Stop,
    }
}

/// Decides what the inbound loop of the ticker plant does with what its reader
/// came back with.
pub fn handle_responses_from_ticker_plant<'a>(event: InboundEvent<'a>) -> (action: InboundAction<'a>)
    ensures
        is_inbound_action_for(SysInfraType::TickerPlant, event, action),
{
    inbound_step(SysInfraType::TickerPlant, event)
}

/// Decides what the inbound loop of the order plant does with what its reader
/// came back with.
pub fn handle_responses_from_order_plant<'a>(event: InboundEvent<'a>) -> (action: InboundAction<'a>)
    ensures
        is_inbound_action_for(SysInfraType::OrderPlant, event, action),
{
    inbound_step(SysInfraType::OrderPlant, event)
}

/// Decides what the inbound loop of the history plant does with what its reader
/// came back with.
pub fn handle_responses_from_history_plant<'a>(event: InboundEvent<'a>) -> (action: InboundAction<'a>)
    ensures
        is_inbound_action_for(SysInfraType::HistoryPlant, event, action),
{
    inbound_step(SysInfraType::HistoryPlant, event)
}

/// Decides what the inbound loop of the profit-and-loss plant does with what its reader
/// came back with.
pub fn handle_responses_from_pnl_plant<'a>(event: InboundEvent<'a>) -> (action: InboundAction<'a>)
    ensures
        is_inbound_action_for(SysInfraType::PnlPlant, event, action),
{
    inbound_step(SysInfraType::PnlPlant, event)
}

/// Decides what the inbound loop of the repository plant does with what its reader
/// came back with.
pub fn handle_responses_from_repo_plant<'a>(event: InboundEvent<'a>) -> (action: InboundAction<'a>)
    ensures
        is_inbound_action_for(SysInfraType::RepositoryPlant, event, action),
{
    inbound_step(SysInfraType::RepositoryPlant, event)
}

/// Whether an inbound loop that has taken the given events, in their order,
/// is still reading.
pub open spec fn still_reading(events: Seq<InboundEvent>) -> bool
    decreases events.len(),
{
    if events.len() == 0 {
        true
    } else {
        still_reading(events.drop_last()) && !ends_loop(events.last())
    }
}

/// The inbound loop ends on a read failure and on the end of the stream, and
/// on nothing else: a frame that cannot be read and a message of another kind
/// leave it running.
pub proof fn lemma_loop_ends_on_read_failure(
    plant: SysInfraType,
    event: InboundEvent,
    action: InboundAction,
)
    requires
        is_inbound_action_for(plant, event, action),
    ensures
        action is Stop <==> ends_loop(event),
        event is Failed ==> action is Stop,
{
}

/// A loop that is still reading has seen neither a read failure nor the end
/// of the stream: once one of them came, no later item is taken.
pub proof fn lemma_nothing_is_read_after_the_end(events: Seq<InboundEvent>, i: int)
    requires
        still_reading(events),
        0 <= i < events.len(),
    ensures
        !ends_loop(events[i]),
    decreases events.len(),
{
    if i < events.len() - 1 {
        assert(events.drop_last()[i] == events[i]);
        lemma_nothing_is_read_after_the_end(events.drop_last(), i);
    }
}

} // verus!
