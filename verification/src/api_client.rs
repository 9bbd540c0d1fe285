use crate::broadcaster::{
    offered, no_subscribers, replaced_frames, QueueView, SubscriberName,
};
use crate::credentials::RithmicCredentials;
use crate::errors::RithmicApiError;
use crate::framing::{encode_frame, frame, is_whole_frame};
use crate::handshake::{
    is_action_for, next_state, signing_out, Handshake, HandshakeAction, HandshakeEvent,
    HandshakeState, LOGOUT_REQUEST,
};
use crate::heartbeat::{on_wake, HeartbeatAction};
use crate::hub::BroadcastHub;
use crate::inbound::{inbound_step, is_inbound_action_for, InboundAction, InboundEvent};
use crate::lifecycle::{can_start_heartbeat, later, others, ClientView};
use crate::lifecycle::{lemma_after_login_wf, lemma_evicted_wf, lemma_filter_plant};
use crate::plants::SysInfraType;
use crate::registry;
use crate::registry::{lookup, sessions_of, Session};
use crate::wire;
use dashmap::DashMap;
use vstd::prelude::*;
use vstd::slice::slice_to_vec;
use vstd::string::StringExecFns;

verus! {

/// A frame that is ready to go out, and the write half to send it on.
#[derive(Debug)]
pub struct Outgoing {
    pub writer: u64,
    pub frame: Vec<u8>,
}

/// What is left for the transport to drop after a plant was taken out of the
/// registry.
#[derive(Clone, Copy, Debug, PartialEq, Eq, Structural)]
pub struct Teardown {
    pub writer: Option<u64>,
    pub abort_heartbeat: bool,
}

/// The request that signs the client out of a plant.
#[derive(Debug)]
pub struct LogoutRequest {
    pub template_id: i32,
    pub user_msg: String,
}

/// What the transport does to close a plant down: send the logout request,
/// then a close frame, on the given write half, read until the close is
/// confirmed, and abort the heartbeat if one was running.
#[derive(Debug)]
pub struct ShutdownPlan {
    pub writer: u64,
    pub logout: LogoutRequest,
    pub abort_heartbeat: bool,
}

/// What a change of the heartbeat requirement asks of the transport.
#[derive(Clone, Copy, Debug, PartialEq, Eq, Structural)]
pub enum HeartbeatSwitch {
    /// The heartbeat already was as required.
    Unchanged,
    /// A heartbeat activity has to be started; this is its first action.
    Started(HeartbeatAction),
    /// The running heartbeat activity has to be aborted.
    Stopped,
}

/// `result` is what shutting the plant down gives in the registry `view`: a
/// plan for a plant with a write half, a server error for any other.
pub open spec fn is_shutdown_result(
    view: ClientView,
    plant: SysInfraType,
    app_name: Seq<char>,
    result: Result<ShutdownPlan, RithmicApiError>,
) -> bool {
    match view.writer(plant) {
        Some(writer) => {
            &&& result matches Ok(plan)
            &&& plan.writer == writer
            &&& plan.abort_heartbeat == view.heartbeat_running(plant)
            &&& plan.logout.template_id == LOGOUT_REQUEST
            &&& plan.logout.user_msg@ == signing_out(app_name)
        },
        None => result matches Err(RithmicApiError::ServerErrorDebug(_)),
    }
}

/// The queues of a plant's subscribers after the plant's inbound loop took
/// the event: a whole frame is offered to every queue, a read failure and the
/// end of the stream drop the subscribers, anything else changes nothing. A
/// plant that has never connected has no queues before or after.
pub open spec fn channel_after(
    queues: Option<Map<Seq<char>, QueueView>>,
    event: InboundEvent,
) -> Option<Map<Seq<char>, QueueView>> {
    match queues {
        None => None,
        Some(held) => Some(
            match event {
                InboundEvent::Binary(data) => if is_whole_frame(data@) {
                    offered(held, data@)
                } else {
                    held
                },
                InboundEvent::Other => held,
                InboundEvent::Failed(_) => no_subscribers(),
                InboundEvent::Ended => no_subscribers(),
            },
        ),
    }
}

/// The text that reports a failed transmission on a plant.
pub open spec fn send_failure(plant: SysInfraType, reason: Seq<char>) -> Seq<char> {
    "Failed to send RithmicMessage, possible disconnect, try reconnecting to plant "@
        + plant.name() + ": "@ + reason
}

/// The text that reports the first failure among the shutdowns of all plants.
pub open spec fn shutdown_failure(reason: Seq<char>) -> Seq<char> {
    "Failed to properly shutdown a rithmic plant connection: "@ + reason
}

/// The result at `i` is a failure, and none comes before it.
pub open spec fn is_first_failure(results: Seq<Result<(), RithmicApiError>>, i: int) -> bool {
    &&& 0 <= i < results.len()
    &&& results[i] is Err
    &&& forall|j: int| 0 <= j < i ==> (#[trigger] results[j]) is Ok
}

/// The session registry of one client, with the broadcast hub of its plants.
/// The registry decides; a transport layer carries the decisions out and
/// reports back.
pub struct RithmicApiClient {
    credentials: RithmicCredentials,
    connected_plant: Vec<SysInfraType>,
    sessions: DashMap<i32, Session>,
    hub: BroadcastHub,
}

impl View for RithmicApiClient {
    type V = ClientView;

    closed spec fn view(&self) -> ClientView {
        ClientView { connected: self.connected_plant@, sessions: sessions_of(self.sessions) }
    }
}

fn find(list: &Vec<SysInfraType>, plant: SysInfraType) -> (found: bool)
    ensures
        found == list@.contains(plant),
{
    let mut i: usize = 0;
    while i < list.len()
        invariant
            i <= list@.len(),
            forall|k: int| 0 <= k < i ==> list@[k] != plant,
        decreases list@.len() - i,
    {
        if list[i] == plant {
            return true;
        }
        i += 1;
    }
    false
}

fn without(list: &Vec<SysInfraType>, plant: SysInfraType) -> (kept: Vec<SysInfraType>)
    ensures
        kept@ == others(list@, plant),
{
    let mut kept: Vec<SysInfraType> = Vec::new();
    let mut i: usize = 0;
    proof {
        reveal(Seq::filter);
    }
    while i < list.len()
        invariant
            i <= list@.len(),
            kept@ == others(list@.take(i as int), plant),
        decreases list@.len() - i,
    {
        proof {
            reveal(Seq::filter);
            assert(list@.take(i + 1).drop_last() == list@.take(i as int));
        }
        if list[i] != plant {
            kept.push(list[i]);
        }
        i += 1;
    }
    assert(list@.take(list@.len() as int) == list@);
    kept
}

impl RithmicApiClient {
    /// The registry is well-formed, and every connected plant has its
    /// broadcaster.
    pub closed spec fn wf(&self) -> bool {
        &&& self@.wf()
        &&& self.hub.wf()
        &&& forall|plant: SysInfraType| #[trigger]
            self@.is_connected(plant) ==> self.hub.channel(plant) is Some
    }

    /// The queues of the plant's subscribers, or `None` for a plant that has
    /// never connected.
    pub closed spec fn channel(&self, plant: SysInfraType) -> Option<Map<Seq<char>, QueueView>> {
        self.hub.channel(plant)
    }

    /// The credentials that the client signs in with.
    pub closed spec fn credentials(&self) -> RithmicCredentials {
        self.credentials
    }

    /// Everything but the registry is as it was in `before`.
    pub open spec fn same_surroundings(&self, before: &RithmicApiClient) -> bool {
        &&& self.credentials() == before.credentials()
        &&& forall|plant: SysInfraType| self.channel(plant) == before.channel(plant)
    }

    /// A well-formed client has a well-formed registry.
    pub proof fn lemma_wf_registry(&self)
        requires
            self.wf(),
        ensures
            self@.wf(),
            forall|plant: SysInfraType| #[trigger]
                self@.is_connected(plant) ==> self.channel(plant) is Some,
    {
    }

    /// A client with no plant connected.
    pub fn new(credentials: RithmicCredentials) -> (client: Self)
        ensures
            client.wf(),
            client.credentials() == credentials,
            client@.connected.len() == 0,
            forall|plant: SysInfraType| client@.session(plant) is None,
            forall|plant: SysInfraType| client.channel(plant) is None,
    {
        let client = Self {
            credentials,
            connected_plant: Vec::with_capacity(5),
            sessions: registry::with_capacity(5),
            hub: BroadcastHub::new(),
        };
        proof {
            assert forall|code: i32| !client@.sessions.contains_key(code) by {
                assert(!client@.sessions.dom().contains(code));
            }
        }
        client
    }

    /// Returns the system name under which the plant was logged in.
    pub fn get_system_name(&self, plant: &SysInfraType) -> (name: Option<String>)
        ensures
            name == (match self@.session(*plant) {
                Some(session) => Some(session.system_name),
                None => None,
            }),
    {
        match registry::get(&self.sessions, plant.as_i32()) {
            None => None,
            Some(session) => Some(session.system_name),
        }
    }

    /// Returns the write half registered for the plant.
    pub fn get_writer(&self, plant: &SysInfraType) -> (writer: Option<u64>)
        ensures
            writer == self@.writer(*plant),
    {
        match registry::get(&self.sessions, plant.as_i32()) {
            None => None,
            Some(session) => session.writer,
        }
    }

    /// Returns the time of the plant's last outgoing frame, in milliseconds.
    pub fn get_last_message_time(&self, plant: &SysInfraType) -> (time: Option<u64>)
        ensures
            time == (match self@.session(*plant) {
                Some(session) => session.last_message_time,
                None => None,
            }),
    {
        match registry::get(&self.sessions, plant.as_i32()) {
            None => None,
            Some(session) => session.last_message_time,
        }
    }

    /// Returns the heartbeat interval agreed with the plant, in seconds.
    pub fn get_heartbeat_interval(&self, plant: &SysInfraType) -> (interval: Option<u64>)
        ensures
            interval == (match self@.session(*plant) {
                Some(session) => session.heartbeat_interval,
                None => None,
            }),
    {
        match registry::get(&self.sessions, plant.as_i32()) {
            None => None,
            Some(session) => session.heartbeat_interval,
        }
    }

    /// Tells whether the plant's heartbeat activity is running.
    pub fn is_heartbeat_running(&self, plant: &SysInfraType) -> (b: bool)
        ensures
            b == self@.heartbeat_running(*plant),
    {
        match registry::get(&self.sessions, plant.as_i32()) {
            None => false,
            Some(session) => session.heartbeat_running,
        }
    }

    /// Returns the plants that are connected, in the order in which they
    /// connected.
    pub fn connected_plants(&self) -> (plants: Vec<SysInfraType>)
        ensures
            plants@ == self@.connected,
    {
        let mut plants: Vec<SysInfraType> = Vec::new();
        let mut i: usize = 0;
        while i < self.connected_plant.len()
            invariant
                i <= self.connected_plant@.len(),
                plants@ == self.connected_plant@.take(i as int),
            decreases self.connected_plant@.len() - i,
        {
            plants.push(self.connected_plant[i]);
            assert(self.connected_plant@.take(i + 1) == self.connected_plant@.take(i as int).push(
                self.connected_plant@[i as int],
            ));
            i += 1;
        }
        assert(self.connected_plant@.take(self.connected_plant@.len() as int)
            == self.connected_plant@);
        plants
    }

    /// Tells whether the plant is listed as connected. The answer says that
    /// a login succeeded, not that the connection is still alive.
    pub fn is_connected(&self, plant: SysInfraType) -> (b: bool)
        ensures
            b == self@.is_connected(plant),
    {
        find(&self.connected_plant, plant)
    }

    /// Takes the plant out of the registry without signing out. The answer
    /// tells the transport which handles to drop.
    pub fn register_disconnect(&mut self, plant: SysInfraType) -> (teardown: Teardown)
        requires
            old(self).wf(),
        ensures
            final(self).wf(),
            final(self)@ == old(self)@.evicted(plant),
            !final(self)@.is_connected(plant),
            final(self)@.writer(plant) is None,
            final(self).same_surroundings(old(self)),
            teardown.writer == old(self)@.writer(plant),
            teardown.abort_heartbeat == old(self)@.heartbeat_running(plant),
    {
        proof {
            lemma_evicted_wf(self@, plant);
            lemma_filter_plant(self@.connected, plant);
        }
        self.connected_plant = without(&self.connected_plant, plant);
        let removed = registry::remove(&mut self.sessions, plant.as_i32());
        proof {
            assert(self@ == old(self)@.evicted(plant));
            assert forall|q: SysInfraType| #[trigger] self@.is_connected(q) implies self.hub.channel(
                q,
            ) is Some by {
                assert(old(self)@.is_connected(q));
            }
        }
        match removed {
            Some(session) => Teardown {
                writer: session.writer,
                abort_heartbeat: session.heartbeat_running,
            },
            None => Teardown { writer: None, abort_heartbeat: false },
        }
    }

    /// Starts the handshake with the plant of the given code. A code that
    /// names no plant, or the code of a plant that is connected already, is
    /// an error of the caller; a plant has to be disconnected before it is
    /// connected again. Nothing is sent before these checks.
    pub fn connect_and_login(&self, infra_type: i32) -> (r: Result<Handshake, RithmicApiError>)
        ensures
            match r {
                Ok(handshake) => {
                    &&& 1 <= infra_type <= 5
                    &&& handshake.plant().code() == infra_type
                    &&& !self@.is_connected(handshake.plant())
                    &&& handshake.state() == HandshakeState::ConnectingForSystemInfo
                },
                Err(error) => {
                    &&& error is ClientErrorDebug
                    &&& !(1 <= infra_type <= 5) || exists|plant: SysInfraType|
                        plant.code() == infra_type && self@.is_connected(plant)
                },
            },
    {
        let handshake = Handshake::begin(infra_type)?;
        if find(&self.connected_plant, handshake.target()) {
            return Err(
                RithmicApiError::ClientErrorDebug(
                    String::from_str("Already connected, disconnect first: ").concat(
                        handshake.target().as_str(),
                    ),
                ),
            );
        }
        Ok(handshake)
    }

    /// Hands the transport's report on the last handshake action to the
    /// handshake and returns the next action, made with the client's
    /// credentials.
    pub fn handshake_step(&self, handshake: &mut Handshake, event: HandshakeEvent) -> (action:
        HandshakeAction)
        ensures
            final(handshake).plant() == old(handshake).plant(),
            final(handshake).state() == next_state(old(handshake).state(), event),
            is_action_for(
                old(handshake).state(),
                event,
                self.credentials(),
                old(handshake).plant(),
                final(handshake).system_name(),
                action,
            ),
            !(old(handshake).state() == HandshakeState::AwaitingSystemInfo && event is SystemInfo)
                ==> final(handshake).system_name() == old(handshake).system_name(),
    {
        handshake.step(&self.credentials, event)
    }

    /// Registers a plant whose handshake has succeeded and starts its
    /// heartbeat, whose first action is to send a heartbeat at once. The
    /// login is turned down, and nothing changes, when the plant is connected
    /// already or when the server named no heartbeat interval: a plant is
    /// never left connected without a way to stay alive.
    pub fn register_login(
        &mut self,
        plant: SysInfraType,
        system_name: String,
        heartbeat_interval: Option<u64>,
        writer: u64,
        now: u64,
    ) -> (r: Result<HeartbeatAction, RithmicApiError>)
        requires
            old(self).wf(),
        ensures
            final(self).wf(),
            final(self).credentials() == old(self).credentials(),
            final(self)@ == old(self)@.after_login(
                plant,
                system_name,
                heartbeat_interval,
                writer,
                now,
            ),
            match r {
                Ok(first) => {
                    &&& old(self)@.accepts_login(plant, heartbeat_interval)
                    &&& first == HeartbeatAction::Transmit(writer)
                    &&& final(self).channel(plant) == (match old(self).channel(plant) {
                        Some(queues) => Some(queues),
                        None => Some(no_subscribers()),
                    })
                    &&& forall|other: SysInfraType|
                        other != plant ==> final(self).channel(other) == old(self).channel(other)
                },
                Err(error) => {
                    &&& !old(self)@.accepts_login(plant, heartbeat_interval)
                    &&& error is ClientErrorDebug
                    &&& final(self).same_surroundings(old(self))
                },
            },
    {
        if find(&self.connected_plant, plant) {
            return Err(
                RithmicApiError::ClientErrorDebug(
                    String::from_str("Already connected, disconnect first: ").concat(
                        plant.as_str(),
                    ),
                ),
            );
        }
        if heartbeat_interval.is_none() {
            return Err(
                RithmicApiError::ClientErrorDebug(
                    "No heartbeat interval recorded at log in, please logout and login again".to_owned(),
                ),
            );
        }
        proof {
            lemma_after_login_wf(self@, plant, system_name, heartbeat_interval, writer, now);
        }
        let session = Session {
            system_name,
            writer: Some(writer),
            heartbeat_interval,
            last_message_time: Some(now),
            heartbeat_running: true,
        };
        self.connected_plant.push(plant);
        let _ = registry::insert(&mut self.sessions, plant.as_i32(), session);
        self.hub.open(plant);
        proof {
            assert forall|q: SysInfraType| #[trigger] self@.is_connected(q) implies self.hub.channel(
                q,
            ) is Some by {
                if q != plant {
                    let i = choose|i: int| 0 <= i < self@.connected.len() && self@.connected[i] == q;
                    assert(old(self)@.connected[i] == q);
                    assert(old(self)@.is_connected(q));
                }
            }
        }
        Ok(HeartbeatAction::Transmit(writer))
    }

    /// Frames a serialized message for the plant. A plant without a write
    /// half — never connected, torn down, or cut off by a failed send —
    /// cannot be sent on: that is an error of the caller.
    pub fn send_message(&self, plant: &SysInfraType, message: &[u8]) -> (r: Result<
        Outgoing,
        RithmicApiError,
    >)
        ensures
            match self@.writer(*plant) {
                None => r matches Err(RithmicApiError::ClientErrorDebug(_)),
                Some(writer) => if message@.len() <= u32::MAX {
                    r matches Ok(out) && out.writer == writer && out.frame@ == frame(message@)
                } else {
                    r matches Err(RithmicApiError::ServerErrorDebug(_))
                },
            },
    {
        let writer = match self.get_writer(plant) {
            Some(writer) => writer,
            None => {
                return Err(
                    RithmicApiError::ClientErrorDebug(
                        String::from_str(
                            "You have not ran connect_and_login for this plant: ",
                        ).concat(plant.as_str()),
                    ),
                );
            },
        };
        let frame = encode_frame(message)?;
        Ok(Outgoing { writer, frame })
    }

    fn replace_session(&mut self, plant: SysInfraType, session: Session)
        requires
            old(self).wf(),
            old(self)@.session(plant) is Some,
            session.wf(),
        ensures
            final(self).wf(),
            final(self)@ == old(self)@.with_session(plant, session),
            final(self).same_surroundings(old(self)),
    {
        let _ = registry::insert(&mut self.sessions, plant.as_i32(), session);
        proof {
            let before = old(self)@;
            let after = self@;
            assert forall|q: SysInfraType| #[trigger]
                after.connected.contains(q) <==> after.sessions.contains_key(q.code()) by {
                assert(before.connected.contains(q) <==> before.sessions.contains_key(q.code()));
            }
            assert forall|code: i32| #[trigger] after.sessions.contains_key(code) implies 1
                <= code <= 5 && after.sessions[code].wf() by {
                if code != plant.code() {
                    assert(before.sessions.contains_key(code));
                }
            }
            assert forall|q: SysInfraType| #[trigger] after.is_connected(q) implies self.hub.channel(
                q,
            ) is Some by {
                assert(before.is_connected(q));
            }
        }
    }

    /// Records that a frame went out on the plant at `now`, which puts off
    /// the plant's next heartbeat. The recorded time never moves backwards.
    pub fn update_heartbeat(&mut self, plant: SysInfraType, now: u64)
        requires
            old(self).wf(),
        ensures
            final(self).wf(),
            final(self)@ == old(self)@.after_send(plant, now),
            final(self).same_surroundings(old(self)),
    {
        match registry::get(&self.sessions, plant.as_i32()) {
            None => {},
            Some(session) => {
                let last = Self::later_of(session.last_message_time, now);
                self.replace_session(
                    plant,
                    Session {
                        system_name: session.system_name,
                        writer: session.writer,
                        heartbeat_interval: session.heartbeat_interval,
                        last_message_time: Some(last),
                        heartbeat_running: session.heartbeat_running,
                    },
                );
            },
        }
    }

    fn later_of(recorded: Option<u64>, now: u64) -> (t: u64)
        ensures
            t == later(recorded, now),
    {
        match recorded {
            Some(t) => if t > now {
                t
            } else {
                now
            },
            None => now,
        }
    }

    /// Records that a transmission on the plant failed. The plant's write
    /// half is dropped and its heartbeat ends; the plant stays listed as
    /// connected until it is disconnected. The answer is the transport error
    /// to hand to the caller.
    pub fn send_failed(&mut self, plant: SysInfraType, reason: &str) -> (error: RithmicApiError)
        requires
            old(self).wf(),
        ensures
            final(self).wf(),
            final(self)@ == old(self)@.after_send_failure(plant),
            final(self).same_surroundings(old(self)),
            error matches RithmicApiError::WebSocket(text) && text@ == send_failure(plant, reason@),
    {
        match registry::get(&self.sessions, plant.as_i32()) {
            None => {},
            Some(session) => {
                self.replace_session(
                    plant,
                    Session {
                        system_name: session.system_name,
                        writer: None,
                        heartbeat_interval: session.heartbeat_interval,
                        last_message_time: session.last_message_time,
                        heartbeat_running: false,
                    },
                );
            },
        }
        RithmicApiError::WebSocket(
            String::from_str(
                "Failed to send RithmicMessage, possible disconnect, try reconnecting to plant ",
            ).concat(plant.as_str()).concat(": ").concat(reason),
        )
    }

    /// Signs the plant out of the registry and tells the transport how to
    /// close it down. The plant is taken out in any case; without a write
    /// half there is nothing to send the logout on, which is a server error.
    pub fn shutdown_plant(&mut self, plant: SysInfraType) -> (r: Result<
        ShutdownPlan,
        RithmicApiError,
    >)
        requires
            old(self).wf(),
        ensures
            final(self).wf(),
            final(self)@ == old(self)@.evicted(plant),
            !final(self)@.is_connected(plant),
            final(self)@.writer(plant) is None,
            final(self).same_surroundings(old(self)),
            is_shutdown_result(old(self)@, plant, old(self).credentials().app_name@, r),
    {
        let teardown = self.register_disconnect(plant);
        match teardown.writer {
            Some(writer) => Ok(
                ShutdownPlan {
                    writer,
                    logout: LogoutRequest {
                        template_id: LOGOUT_REQUEST,
                        user_msg: self.credentials.app_name.clone().concat(" Signing Out"),
                    },
                    abort_heartbeat: teardown.abort_heartbeat,
                },
            ),
            None => Err(
                RithmicApiError::ServerErrorDebug(
                    String::from_str("No writer found for rithmic plant: ").concat(plant.as_str()),
                ),
            ),
        }
    }

    /// Shuts down every connected plant, in the order in which the plants
    /// connected. A plant that cannot be signed out does not keep the others
    /// from being shut down: there is one result for each plant.
    pub fn shutdown_all(&mut self) -> (results: Vec<(SysInfraType, Result<ShutdownPlan, RithmicApiError>)>)
        requires
            old(self).wf(),
        ensures
            final(self).wf(),
            final(self).same_surroundings(old(self)),
            final(self)@.connected.len() == 0,
            forall|plant: SysInfraType| final(self)@.session(plant) is None,
            results@.len() == old(self)@.connected.len(),
            forall|i: int|
                0 <= i < results@.len() ==> (#[trigger] results@[i]).0 == old(self)@.connected[i]
                    && is_shutdown_result(
                    old(self)@,
                    old(self)@.connected[i],
                    old(self).credentials().app_name@,
                    results@[i].1,
                ),
    {
        let mut results: Vec<(SysInfraType, Result<ShutdownPlan, RithmicApiError>)> = Vec::new();
        let count = self.connected_plant.len();
        let mut i: usize = 0;
        while i < count
            invariant
                i <= count,
                count == old(self)@.connected.len(),
                self.wf(),
                self.same_surroundings(old(self)),
                old(self)@.wf(),
                results@.len() == i,
                self@.connected == old(self)@.connected.skip(i as int),
                forall|k: int|
                    i <= k < count ==> self@.session(#[trigger] old(self)@.connected[k]) == old(self)@.session(old(self)@.connected[k]),
                forall|k: int|
                    0 <= k < i ==> (#[trigger] results@[k]).0 == old(self)@.connected[k]
                        && is_shutdown_result(
                        old(self)@,
                        old(self)@.connected[k],
                        old(self).credentials().app_name@,
                        results@[k].1,
                    ),
            decreases count - i,
        {
            let ghost before = self@;
            let plant = self.connected_plant[0];
            assert(plant == old(self)@.connected[i as int]);
            let result = self.shutdown_plant(plant);
            proof {
                lemma_filter_plant(before.connected, plant);
                lemma_others_of_first(before.connected);
                assert(before.connected.skip(1) == old(self)@.connected.skip(i + 1));
                assert forall|k: int| i + 1 <= k < count implies self@.session(
                    #[trigger] old(self)@.connected[k],
                ) == old(self)@.session(old(self)@.connected[k]) by {
                    assert(old(self)@.connected[k] != old(self)@.connected[i as int]);
                }
            }
            results.push((plant, result));
            i += 1;
        }
        proof {
            assert forall|plant: SysInfraType| self@.session(plant) is None by {
                if self@.sessions.contains_key(plant.code()) {
                    assert(self@.connected.contains(plant));
                }
            }
        }
        results
    }

    /// Starts the plant's heartbeat at `now`. The activity's first action is
    /// to send a heartbeat at once. A heartbeat cannot be started without a
    /// session that has an interval and a write half, nor beside one that
    /// runs already: a plant has one heartbeat activity at most.
    pub fn start_heartbeat(&mut self, plant: SysInfraType, now: u64) -> (r: Result<
        HeartbeatAction,
        RithmicApiError,
    >)
        requires
            old(self).wf(),
        ensures
            final(self).wf(),
            final(self)@ == old(self)@.after_heartbeat_start(plant, now),
            final(self).same_surroundings(old(self)),
            match r {
                Ok(first) => {
                    &&& old(self)@.session(plant) matches Some(session)
                    &&& can_start_heartbeat(session)
                    &&& first == HeartbeatAction::Transmit(session.writer->0)
                },
                Err(error) => {
                    &&& error is ClientErrorDebug
                    &&& !(old(self)@.session(plant) matches Some(session) && can_start_heartbeat(
                        session,
                    ))
                },
            },
    {
        let session = match registry::get(&self.sessions, plant.as_i32()) {
            Some(session) => session,
            None => {
                return Err(
                    RithmicApiError::ClientErrorDebug(
                        "No heartbeat interval recorded at log in, please logout and login again".to_owned(),
                    ),
                );
            },
        };
        if session.heartbeat_interval.is_none() {
            return Err(
                RithmicApiError::ClientErrorDebug(
                    "No heartbeat interval recorded at log in, please logout and login again".to_owned(),
                ),
            );
        }
        let writer = match session.writer {
            Some(writer) => writer,
            None => {
                return Err(
                    RithmicApiError::ClientErrorDebug(
                        "No writer stored at log in, please logout and login again".to_owned(),
                    ),
                );
            },
        };
        if session.heartbeat_running {
            return Err(
                RithmicApiError::ClientErrorDebug(
                    "The heartbeat of this plant is running already".to_owned(),
                ),
            );
        }
        let last = Self::later_of(session.last_message_time, now);
        self.replace_session(
            plant,
            Session {
                system_name: session.system_name,
                writer: session.writer,
                heartbeat_interval: session.heartbeat_interval,
                last_message_time: Some(last),
                heartbeat_running: true,
            },
        );
        Ok(HeartbeatAction::Transmit(writer))
    }

    /// Decides what the plant's heartbeat activity does when it wakes at
    /// `now`. Traffic since the activity went to sleep puts the heartbeat
    /// off: the activity then sleeps on without sending.
    pub fn heartbeat_wake(&self, plant: SysInfraType, now: u64) -> (action: HeartbeatAction)
        requires
            self.wf(),
        ensures
            action == self@.wake_action(plant, now),
    {
        match registry::get(&self.sessions, plant.as_i32()) {
            None => HeartbeatAction::Stop,
            Some(session) => {
                assert(self@.sessions.contains_key(plant.code()));
                if !session.heartbeat_running {
                    return HeartbeatAction::Stop;
                }
                match (session.last_message_time, session.heartbeat_interval, session.writer) {
                    (Some(last), Some(interval), Some(writer)) => on_wake(
                        last,
                        interval,
                        now,
                        writer,
                    ),
                    _ => HeartbeatAction::Stop,
                }
            },
        }
    }

    /// Takes the report on a heartbeat that the activity tried to send at
    /// `now`. A heartbeat that went out counts as traffic, and the activity
    /// sleeps for another interval. One that failed ends the activity for
    /// good and costs the plant its write half.
    pub fn heartbeat_sent(&mut self, plant: SysInfraType, delivered: bool, now: u64) -> (action:
        HeartbeatAction)
        requires
            old(self).wf(),
        ensures
            final(self).wf(),
            final(self).same_surroundings(old(self)),
            final(self)@ == (if !old(self)@.heartbeat_running(plant) {
                old(self)@
            } else if delivered {
                old(self)@.after_send(plant, now)
            } else {
                old(self)@.after_send_failure(plant)
            }),
            action == (if delivered {
                final(self)@.wake_action(plant, now)
            } else {
                HeartbeatAction::Stop
            }),
            delivered && old(self)@.heartbeat_running(plant) && old(self)@.session(
                plant,
            )->0.heartbeat_interval->0 >= 1 ==> action is SleepUntil,
    {
        let running = match registry::get(&self.sessions, plant.as_i32()) {
            Some(session) => session.heartbeat_running,
            None => false,
        };
        assert(running ==> self@.sessions.contains_key(plant.code()));
        if !running {
            return if delivered {
                self.heartbeat_wake(plant, now)
            } else {
                HeartbeatAction::Stop
            };
        }
        if delivered {
            self.update_heartbeat(plant, now);
            self.heartbeat_wake(plant, now)
        } else {
            let _ = self.send_failed(plant, "heartbeat");
            HeartbeatAction::Stop
        }
    }

    /// Switches the plant's heartbeat on or off. Asking for what is already
    /// the case changes nothing. Switching on starts a heartbeat where none
    /// runs, which needs a session to start it on; switching off tells the
    /// transport to abort the running one.
    pub fn switch_heartbeat_required(&mut self, plant: &SysInfraType, requirement: bool, now: u64)
        -> (r: Result<HeartbeatSwitch, RithmicApiError>)
        requires
            old(self).wf(),
        ensures
            final(self).wf(),
            final(self).same_surroundings(old(self)),
            final(self)@ == (if requirement {
                old(self)@.after_heartbeat_start(*plant, now)
            } else {
                old(self)@.after_heartbeat_stop(*plant)
            }),
            requirement == old(self)@.heartbeat_running(*plant) ==> r == Ok::<
                HeartbeatSwitch,
                RithmicApiError,
            >(HeartbeatSwitch::Unchanged) && final(self)@ == old(self)@,
            !requirement && old(self)@.heartbeat_running(*plant) ==> r == Ok::<
                HeartbeatSwitch,
                RithmicApiError,
            >(HeartbeatSwitch::Stopped) && !final(self)@.heartbeat_running(*plant),
            requirement && !old(self)@.heartbeat_running(*plant) ==> (match r {
                Ok(switch) => old(self)@.session(*plant) matches Some(session)
                    && can_start_heartbeat(session) && switch == HeartbeatSwitch::Started(
                    HeartbeatAction::Transmit(session.writer->0),
                ) && final(self)@.heartbeat_running(*plant),
                Err(error) => error is ClientErrorDebug && final(self)@ == old(self)@ && !(old(self)@.session(*plant) matches Some(session) && can_start_heartbeat(session)),
            }),
    {
        let session = registry::get(&self.sessions, plant.as_i32());
        let running = match &session {
            Some(session) => session.heartbeat_running,
            None => false,
        };
        assert(running ==> self@.sessions.contains_key(plant.code()));
        if requirement == running {
            proof {
                if session is Some {
                    assert(self@.sessions.insert(plant.code(), session->0) == self@.sessions);
                }
            }
            return Ok(HeartbeatSwitch::Unchanged);
        }
        if requirement {
            let start = self.start_heartbeat(*plant, now)?;
            Ok(HeartbeatSwitch::Started(start))
        } else {
            match session {
                Some(session) => {
                    self.replace_session(
                        *plant,
                        Session {
                            system_name: session.system_name,
                            writer: session.writer,
                            heartbeat_interval: session.heartbeat_interval,
                            last_message_time: session.last_message_time,
                            heartbeat_running: false,
                        },
                    );
                },
                None => {},
            }
            Ok(HeartbeatSwitch::Stopped)
        }
    }

    /// Scans a serialized message for its template id.
    pub fn extract_template_id(&self, bytes: &[u8]) -> (r: Option<i32>)
        ensures
            r == wire::template_id(bytes@),
    {
        wire::extract_template_id(bytes)
    }

    /// Registers a subscriber for the frames that arrive on the plant.
    /// Subscribing to a plant that has never connected is an error of the
    /// caller. A subscriber already registered under the name is replaced;
    /// the answer tells how many waiting frames went with it.
    pub fn subscribe(&mut self, plant: SysInfraType, subscriber_name: SubscriberName, buffer_size: usize)
        -> (r: Result<Option<usize>, RithmicApiError>)
        requires
            old(self).wf(),
            0 < buffer_size <= usize::MAX / 8,
        ensures
            final(self).wf(),
            final(self)@ == old(self)@,
            final(self).credentials() == old(self).credentials(),
            forall|other: SysInfraType|
                other != plant ==> final(self).channel(other) == old(self).channel(other),
            match old(self).channel(plant) {
                Some(queues) => r == Ok::<Option<usize>, RithmicApiError>(
                    replaced_frames(queues, subscriber_name@),
                ) && final(self).channel(plant) == Some(
                    queues.insert(subscriber_name@, QueueView::empty(buffer_size as nat)),
                ),
                None => r matches Err(RithmicApiError::ClientErrorDebug(_)) && final(self).channel(
                    plant,
                ) is None,
            },
    {
        self.hub.subscribe(plant, subscriber_name, buffer_size)
    }

    /// Tells whether a subscriber of that name is registered on the plant.
    pub fn is_subscribed(&self, plant: SysInfraType, subscriber_name: &SubscriberName) -> (b: bool)
        requires
            self.wf(),
        ensures
            b == (self.channel(plant) matches Some(queues) && queues.contains_key(
                subscriber_name@,
            )),
    {
        self.hub.is_subscribed(plant, subscriber_name)
    }

    /// Removes a subscriber of the plant. Nothing happens when there is no
    /// such subscriber.
    pub fn unsubscribe(&mut self, plant: SysInfraType, subscriber_name: &SubscriberName)
        requires
            old(self).wf(),
        ensures
            final(self).wf(),
            final(self)@ == old(self)@,
            final(self).credentials() == old(self).credentials(),
            forall|other: SysInfraType|
                other != plant ==> final(self).channel(other) == old(self).channel(other),
            final(self).channel(plant) == (match old(self).channel(plant) {
                Some(queues) => Some(queues.remove(subscriber_name@)),
                None => None,
            }),
    {
        self.hub.unsubscribe(plant, subscriber_name)
    }

    /// Offers a frame that arrived on the plant to each of the plant's
    /// subscribers. A subscriber whose queue is full misses the frame.
    pub fn publish(&mut self, plant: SysInfraType, frame: Vec<u8>)
        requires
            old(self).wf(),
        ensures
            final(self).wf(),
            final(self)@ == old(self)@,
            final(self).credentials() == old(self).credentials(),
            forall|other: SysInfraType|
                other != plant ==> final(self).channel(other) == old(self).channel(other),
            final(self).channel(plant) == (match old(self).channel(plant) {
                Some(queues) => Some(offered(queues, frame@)),
                None => None,
            }),
    {
        self.hub.publish(plant, frame)
    }

    /// Takes the oldest waiting frame out of a subscriber's queue.
    pub fn receive(&mut self, plant: SysInfraType, subscriber_name: &SubscriberName) -> (frame:
        Option<Vec<u8>>)
        requires
            old(self).wf(),
        ensures
            final(self).wf(),
            final(self)@ == old(self)@,
            final(self).credentials() == old(self).credentials(),
            forall|other: SysInfraType|
                other != plant ==> final(self).channel(other) == old(self).channel(other),
            match frame {
                Some(bytes) => {
                    &&& old(self).channel(plant) matches Some(queues)
                    &&& queues.contains_key(subscriber_name@)
                    &&& queues[subscriber_name@].pending.len() > 0
                    &&& bytes@ == queues[subscriber_name@].pending[0]
                    &&& final(self).channel(plant) == Some(
                        queues.insert(subscriber_name@, queues[subscriber_name@].without_first()),
                    )
                },
                None => {
                    &&& final(self).channel(plant) == old(self).channel(plant)
                    &&& old(self).channel(plant) matches Some(queues) ==> (queues.contains_key(
                        subscriber_name@,
                    ) ==> queues[subscriber_name@].pending.len() == 0)
                },
            },
    {
        self.hub.receive(plant, subscriber_name)
    }

    /// Takes what the reader of the plant's inbound stream came back with
    /// and decides what the inbound loop does with it. A whole frame is
    /// offered to the plant's subscribers and handed on for decoding. A frame
    /// that is not whole, and a message of another kind, change nothing. A
    /// read failure and the end of the stream end the loop and drop the
    /// plant's subscribers.
    pub fn handle_inbound<'a>(&mut self, plant: SysInfraType, event: InboundEvent<'a>) -> (action:
        InboundAction<'a>)
        requires
            old(self).wf(),
        ensures
            final(self).wf(),
            final(self)@ == old(self)@,
            final(self).credentials() == old(self).credentials(),
            forall|other: SysInfraType|
                other != plant ==> final(self).channel(other) == old(self).channel(other),
            is_inbound_action_for(plant, event, action),
            final(self).channel(plant) == channel_after(old(self).channel(plant), event),
    {
        match event {
            InboundEvent::Binary(data) => {
                let action = inbound_step(plant, InboundEvent::Binary(data));
                match action {
                    InboundAction::Dispatch(received) => {
                        self.hub.publish(plant, slice_to_vec(data));
                        InboundAction::Dispatch(received)
                    },
                    InboundAction::Skip => InboundAction::Skip,
                    InboundAction::Stop => InboundAction::Stop,
                }
            },
            other => match inbound_step(plant, other) {
                InboundAction::Stop => {
                    self.hub.clear(plant);
                    InboundAction::Stop
                },
                action => action,
            },
        }
    }

    /// Drops every subscriber of the plant, as when the plant's inbound
    /// stream has ended.
    pub fn inbound_closed(&mut self, plant: SysInfraType)
        requires
            old(self).wf(),
        ensures
            final(self).wf(),
            final(self)@ == old(self)@,
            final(self).credentials() == old(self).credentials(),
            forall|other: SysInfraType|
                other != plant ==> final(self).channel(other) == old(self).channel(other),
            final(self).channel(plant) == (match old(self).channel(plant) {
                Some(_) => Some(no_subscribers()),
                None => None,
            }),
    {
        self.hub.clear(plant)
    }
}

/// In a duplicate-free list, what remains without the first plant is the
/// list behind it.
proof fn lemma_others_of_first(list: Seq<SysInfraType>)
    requires
        list.no_duplicates(),
        list.len() > 0,
    ensures
        others(list, list[0]) == list.skip(1),
    decreases list.len(),
{
    reveal(Seq::filter);
    let plant = list[0];
    if list.len() == 1 {
        assert(list.drop_last().len() == 0);
        assert(others(list.drop_last(), plant) == list.drop_last());
        assert(others(list, plant) == list.skip(1));
    } else {
        let front = list.drop_last();
        assert(front.no_duplicates()) by {
            assert forall|i: int, j: int|
                0 <= i < front.len() && 0 <= j < front.len() && i != j implies front[i]
                != front[j] by {
                assert(front[i] == list[i]);
                assert(front[j] == list[j]);
            }
        }
        assert(front[0] == plant);
        lemma_others_of_first(front);
        assert(list[list.len() - 1] != list[0]);
        assert(front.skip(1).push(list.last()) == list.skip(1));
    }
}

/// Sums up the shutdown of all plants: the whole is well when every plant
/// was shut down well, and otherwise fails with the first plant's failure.
pub fn shutdown_outcome(results: Vec<Result<(), RithmicApiError>>) -> (r: Result<
    (),
    RithmicApiError,
>)
    ensures
        r is Ok <==> forall|i: int| 0 <= i < results@.len() ==> (#[trigger] results@[i]) is Ok,
        r matches Err(error) ==> error is ServerErrorDebug && exists|i: int|
            #[trigger] is_first_failure(results@, i) && error.text() == shutdown_failure(
                results@[i]->Err_0.text(),
            ),
{
    let mut i: usize = 0;
    while i < results.len()
        invariant
            i <= results@.len(),
            forall|j: int| 0 <= j < i ==> (#[trigger] results@[j]) is Ok,
        decreases results@.len() - i,
    {
        match &results[i] {
            Ok(_) => {},
            Err(first) => {
                let text = String::from_str(
                    "Failed to properly shutdown a rithmic plant connection: ",
                ).concat(first.message().as_str());
                assert(is_first_failure(results@, i as int));
                return Err(RithmicApiError::ServerErrorDebug(text));
            },
        }
        i += 1;
    }
    Ok(())
}

} // verus!
