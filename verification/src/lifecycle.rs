use crate::heartbeat::{deadline, is_due, HeartbeatAction, SAFETY_MARGIN_MS};
use crate::plants::SysInfraType;
use crate::registry::{lookup, Session};
use vstd::prelude::*;

verus! {

/// The state of the session registry: the plants that are connected, in the
/// order in which they connected, and the session kept for each of them.
pub struct ClientView {
    pub connected: Seq<SysInfraType>,
    pub sessions: Map<i32, Session>,
}

/// The plants of `list` other than `plant`, in their order.
pub open spec fn others(list: Seq<SysInfraType>, plant: SysInfraType) -> Seq<SysInfraType> {
    list.filter(|p: SysInfraType| p != plant)
}

/// The later of a recorded time and a new one. A plant's time of last traffic
/// only moves forward.
pub open spec fn later(recorded: Option<u64>, now: u64) -> u64 {
    match recorded {
        Some(t) => if t > now {
            t
        } else {
            now
        },
        None => now,
    }
}

/// The session that a successful login creates.
pub open spec fn fresh_session(system_name: String, writer: u64, interval_secs: u64, now: u64)
    -> Session {
    Session {
        system_name,
        writer: Some(writer),
        heartbeat_interval: Some(interval_secs),
        last_message_time: Some(now),
        heartbeat_running: true,
    }
}

/// The session after a frame went out at `now`.
pub open spec fn touched(session: Session, now: u64) -> Session {
    Session {
        system_name: session.system_name,
        writer: session.writer,
        heartbeat_interval: session.heartbeat_interval,
        last_message_time: Some(later(session.last_message_time, now)),
        heartbeat_running: session.heartbeat_running,
    }
}

/// The session after its write half was dropped. The heartbeat ends with it.
pub open spec fn without_writer(session: Session) -> Session {
    Session {
        system_name: session.system_name,
        writer: None,
        heartbeat_interval: session.heartbeat_interval,
        last_message_time: session.last_message_time,
        heartbeat_running: false,
    }
}

/// The session with its heartbeat switched on or off.
pub open spec fn with_heartbeat(session: Session, running: bool) -> Session {
    Session {
        system_name: session.system_name,
        writer: session.writer,
        heartbeat_interval: session.heartbeat_interval,
        last_message_time: session.last_message_time,
        heartbeat_running: running,
    }
}

/// Whether a heartbeat can be started on the session: it has an interval and
/// a write half, and no heartbeat runs yet.
pub open spec fn can_start_heartbeat(session: Session) -> bool {
    session.heartbeat_interval is Some && session.writer is Some && !session.heartbeat_running
}

impl ClientView {
    /// No plant is listed twice, the listed plants are the ones with a
    /// session, and every session is well-formed.
    pub open spec fn wf(self) -> bool {
        &&& self.connected.no_duplicates()
        &&& forall|plant: SysInfraType| #[trigger]
            self.connected.contains(plant) <==> self.sessions.contains_key(plant.code())
        &&& forall|code: i32| #[trigger]
            self.sessions.contains_key(code) ==> 1 <= code <= 5 && self.sessions[code].wf()
    }

    /// Whether the plant is listed as connected. This tells that a login
    /// succeeded, not that the connection is still healthy.
    pub open spec fn is_connected(self, plant: SysInfraType) -> bool {
        self.connected.contains(plant)
    }

    /// The session of the plant, if it has one.
    pub open spec fn session(self, plant: SysInfraType) -> Option<Session> {
        lookup(self.sessions, plant.code())
    }

    /// The write half registered for the plant, if there is one.
    pub open spec fn writer(self, plant: SysInfraType) -> Option<u64> {
        match self.session(plant) {
            Some(session) => session.writer,
            None => None,
        }
    }

    /// Whether the plant's heartbeat is running.
    pub open spec fn heartbeat_running(self, plant: SysInfraType) -> bool {
        self.session(plant) matches Some(session) && session.heartbeat_running
    }

    /// The registry with the plant's session replaced.
    pub open spec fn with_session(self, plant: SysInfraType, session: Session) -> ClientView {
        ClientView {
            connected: self.connected,
            sessions: self.sessions.insert(plant.code(), session),
        }
    }

    /// Whether a login of the plant is accepted: the plant must not be
    /// connected, and the server must have named a heartbeat interval.
    pub open spec fn accepts_login(self, plant: SysInfraType, interval: Option<u64>) -> bool {
        !self.is_connected(plant) && interval is Some
    }

    /// The registry after a login was reported. An accepted login lists the
    /// plant last and gives it a fresh session; any other leaves the registry
    /// as it is.
    pub open spec fn after_login(
        self,
        plant: SysInfraType,
        system_name: String,
        interval: Option<u64>,
        writer: u64,
        now: u64,
    ) -> ClientView {
        if self.accepts_login(plant, interval) {
            ClientView {
                connected: self.connected.push(plant),
                sessions: self.sessions.insert(
                    plant.code(),
                    fresh_session(system_name, writer, interval->0, now),
                ),
            }
        } else {
            self
        }
    }

    /// The registry without the plant: neither listed nor with a session.
    pub open spec fn evicted(self, plant: SysInfraType) -> ClientView {
        ClientView {
            connected: others(self.connected, plant),
            sessions: self.sessions.remove(plant.code()),
        }
    }

    /// The registry after a frame went out on the plant at `now`.
    pub open spec fn after_send(self, plant: SysInfraType, now: u64) -> ClientView {
        match self.session(plant) {
            Some(session) => self.with_session(plant, touched(session, now)),
            None => self,
        }
    }

    /// The registry after a transmission on the plant failed: the write half
    /// is gone and the heartbeat has ended; the plant stays listed.
    pub open spec fn after_send_failure(self, plant: SysInfraType) -> ClientView {
        match self.session(plant) {
            Some(session) => self.with_session(plant, without_writer(session)),
            None => self,
        }
    }

    /// The registry after the plant's heartbeat was started at `now`, where
    /// it could be started.
    pub open spec fn after_heartbeat_start(self, plant: SysInfraType, now: u64) -> ClientView {
        match self.session(plant) {
            Some(session) => if can_start_heartbeat(session) {
                self.with_session(plant, with_heartbeat(touched(session, now), true))
            } else {
                self
            },
            None => self,
        }
    }

    /// The registry after the plant's heartbeat was stopped.
    pub open spec fn after_heartbeat_stop(self, plant: SysInfraType) -> ClientView {
        match self.session(plant) {
            Some(session) => self.with_session(plant, with_heartbeat(session, false)),
            None => self,
        }
    }

    /// What the plant's heartbeat activity does when it wakes at `now`: it
    /// stops if the heartbeat was cancelled or the plant is gone, sends if a
    /// heartbeat is due, and sleeps on otherwise.
    pub open spec fn wake_action(self, plant: SysInfraType, now: u64) -> HeartbeatAction {
        match self.session(plant) {
            Some(session) => if session.wf() && session.heartbeat_running {
                if is_due(session.last_message_time->0, session.heartbeat_interval->0, now) {
                    HeartbeatAction::Transmit(session.writer->0)
                } else {
                    HeartbeatAction::SleepUntil(
                        deadline(session.last_message_time->0, session.heartbeat_interval->0),
                    )
                }
            } else {
                HeartbeatAction::Stop
            },
            None => HeartbeatAction::Stop,
        }
    }
}

/// Filtering a plant out of a duplicate-free list leaves a duplicate-free
/// list that holds the other plants and no others.
pub proof fn lemma_filter_plant(list: Seq<SysInfraType>, plant: SysInfraType)
    requires
        list.no_duplicates(),
    ensures
        others(list, plant).no_duplicates(),
        forall|q: SysInfraType| #[trigger]
            others(list, plant).contains(q) <==> (list.contains(q) && q != plant),
    decreases list.len(),
{
    reveal(Seq::filter);
    let keep = |p: SysInfraType| p != plant;
    let kept = others(list, plant);
    if list.len() == 0 {
        assert(kept == list);
    } else {
        let front = list.drop_last();
        let last = list.last();
        assert(front.no_duplicates()) by {
            assert forall|i: int, j: int|
                0 <= i < front.len() && 0 <= j < front.len() && i != j implies front[i]
                != front[j] by {
                assert(front[i] == list[i]);
                assert(front[j] == list[j]);
            }
        }
        lemma_filter_plant(front, plant);
        let kept_front = others(front, plant);
        assert(!front.contains(last)) by {
            if front.contains(last) {
                let i = choose|i: int| 0 <= i < front.len() && front[i] == last;
                assert(list[i] == list[list.len() - 1]);
            }
        }
        assert forall|q: SysInfraType| #[trigger] kept.contains(q) <==> (list.contains(q) && q
            != plant) by {
            if list.contains(q) {
                let i = choose|i: int| 0 <= i < list.len() && list[i] == q;
                if i < front.len() {
                    assert(front[i] == q);
                }
            }
            if front.contains(q) {
                let i = choose|i: int| 0 <= i < front.len() && front[i] == q;
                assert(list[i] == q);
            }
            if keep(last) {
                assert(kept == kept_front.push(last));
                if kept.contains(q) {
                    let i = choose|i: int| 0 <= i < kept.len() && kept[i] == q;
                    if i < kept_front.len() {
                        assert(kept_front[i] == q);
                    }
                }
                if kept_front.contains(q) {
                    let i = choose|i: int| 0 <= i < kept_front.len() && kept_front[i] == q;
                    assert(kept[i] == q);
                }
                if q == last {
                    assert(kept[kept.len() - 1] == q);
                    assert(list[list.len() - 1] == q);
                }
            } else {
                assert(kept == kept_front);
                if q == last {
                } else if list.contains(q) {
                }
            }
        }
        if keep(last) {
            assert(kept == kept_front.push(last));
            assert forall|i: int, j: int|
                0 <= i < kept.len() && 0 <= j < kept.len() && i != j implies kept[i] != kept[j] by {
                if i < kept_front.len() && j < kept_front.len() {
                    assert(kept_front[i] == kept[i]);
                    assert(kept_front[j] == kept[j]);
                } else if i < kept_front.len() {
                    assert(kept_front[i] == kept[i]);
                    assert(kept_front.contains(kept[i]));
                } else {
                    assert(kept_front[j] == kept[j]);
                    assert(kept_front.contains(kept[j]));
                }
            }
        }
    }
}

/// Every step of the registry keeps it well-formed.
pub proof fn lemma_steps_keep_wf(
    view: ClientView,
    plant: SysInfraType,
    system_name: String,
    interval: Option<u64>,
    writer: u64,
    now: u64,
)
    requires
        view.wf(),
    ensures
        view.after_login(plant, system_name, interval, writer, now).wf(),
        view.evicted(plant).wf(),
        view.after_send(plant, now).wf(),
        view.after_send_failure(plant).wf(),
        view.after_heartbeat_start(plant, now).wf(),
        view.after_heartbeat_stop(plant).wf(),
{
    lemma_after_login_wf(view, plant, system_name, interval, writer, now);
    lemma_evicted_wf(view, plant);
    lemma_with_session_wf(view, plant);
}

proof fn lemma_with_session_wf(view: ClientView, plant: SysInfraType)
    requires
        view.wf(),
    ensures
        forall|session: Session|
            view.session(plant) is Some && session.wf() ==> (#[trigger] view.with_session(
                plant,
                session,
            )).wf(),
{
    assert forall|session: Session| view.session(plant) is Some && session.wf() implies (
    #[trigger] view.with_session(plant, session)).wf() by {
        let after = view.with_session(plant, session);
        assert forall|q: SysInfraType| #[trigger]
            after.connected.contains(q) <==> after.sessions.contains_key(q.code()) by {
            assert(view.connected.contains(q) <==> view.sessions.contains_key(q.code()));
        }
        assert forall|code: i32| #[trigger] after.sessions.contains_key(code) implies 1 <= code
            <= 5 && after.sessions[code].wf() by {
            if code != plant.code() {
                assert(view.sessions.contains_key(code));
            }
        }
    }
}

/// A login keeps the registry well-formed, accepted or not.
pub proof fn lemma_after_login_wf(
    view: ClientView,
    plant: SysInfraType,
    system_name: String,
    interval: Option<u64>,
    writer: u64,
    now: u64,
)
    requires
        view.wf(),
    ensures
        view.after_login(plant, system_name, interval, writer, now).wf(),
{
    let after = view.after_login(plant, system_name, interval, writer, now);
    if view.accepts_login(plant, interval) {
        assert(after.connected.no_duplicates()) by {
            assert forall|i: int, j: int|
                0 <= i < after.connected.len() && 0 <= j < after.connected.len() && i
                    != j implies after.connected[i] != after.connected[j] by {
                if i < view.connected.len() {
                    assert(view.connected[i] == after.connected[i]);
                    assert(view.connected.contains(after.connected[i]));
                }
                if j < view.connected.len() {
                    assert(view.connected[j] == after.connected[j]);
                    assert(view.connected.contains(after.connected[j]));
                }
            }
        }
        assert forall|q: SysInfraType| #[trigger]
            after.connected.contains(q) <==> after.sessions.contains_key(q.code()) by {
            assert(view.connected.contains(q) <==> view.sessions.contains_key(q.code()));
            if after.connected.contains(q) {
                let i = choose|i: int| 0 <= i < after.connected.len() && after.connected[i] == q;
                if i < view.connected.len() {
                    assert(view.connected[i] == q);
                }
            }
            if view.connected.contains(q) {
                let i = choose|i: int| 0 <= i < view.connected.len() && view.connected[i] == q;
                assert(after.connected[i] == q);
            }
            if q == plant {
                assert(after.connected[after.connected.len() - 1] == q);
            }
        }
        assert forall|code: i32| #[trigger] after.sessions.contains_key(code) implies 1 <= code
            <= 5 && after.sessions[code].wf() by {
            if code != plant.code() {
                assert(view.sessions.contains_key(code));
            }
        }
    }
}

/// Evicting a plant keeps the registry well-formed.
pub proof fn lemma_evicted_wf(view: ClientView, plant: SysInfraType)
    requires
        view.wf(),
    ensures
        view.evicted(plant).wf(),
        !view.evicted(plant).is_connected(plant),
{
    let after = view.evicted(plant);
    lemma_filter_plant(view.connected, plant);
    assert forall|q: SysInfraType| #[trigger]
        after.connected.contains(q) <==> after.sessions.contains_key(q.code()) by {
        assert(view.connected.contains(q) <==> view.sessions.contains_key(q.code()));
    }
    assert forall|code: i32| #[trigger] after.sessions.contains_key(code) implies 1 <= code <= 5
        && after.sessions[code].wf() by {
        assert(view.sessions.contains_key(code));
    }
}

/// At most one live session per plant: a plant is listed at most once, and a
/// second login of a plant that is still connected is turned down and leaves
/// the first session as it was.
pub proof fn lemma_one_session_per_plant(
    view: ClientView,
    plant: SysInfraType,
    first_name: String,
    first_interval: Option<u64>,
    first_writer: u64,
    first_now: u64,
    second_name: String,
    second_interval: Option<u64>,
    second_writer: u64,
    second_now: u64,
)
    requires
        view.wf(),
        view.accepts_login(plant, first_interval),
    ensures
        ({
            let once = view.after_login(plant, first_name, first_interval, first_writer, first_now);
            let twice = once.after_login(
                plant,
                second_name,
                second_interval,
                second_writer,
                second_now,
            );
            &&& once.is_connected(plant)
            &&& !once.accepts_login(plant, second_interval)
            &&& twice == once
            &&& twice.wf()
            &&& twice.session(plant) == Some(
                fresh_session(first_name, first_writer, first_interval->0, first_now),
            )
            &&& forall|i: int, j: int|
                0 <= i < twice.connected.len() && 0 <= j < twice.connected.len()
                    && twice.connected[i] == plant && twice.connected[j] == plant ==> i == j
        }),
{
    let once = view.after_login(plant, first_name, first_interval, first_writer, first_now);
    lemma_after_login_wf(view, plant, first_name, first_interval, first_writer, first_now);
    assert(once.connected[once.connected.len() - 1] == plant);
}

/// Shutdown drains cleanly: once a plant was evicted it is no longer
/// connected and has no write half, so that sending on it is an error of the
/// caller. The other plants keep their place and their sessions.
pub proof fn lemma_evicted_plant_is_gone(view: ClientView, plant: SysInfraType, other: SysInfraType)
    requires
        view.wf(),
        other != plant,
    ensures
        !view.evicted(plant).is_connected(plant),
        view.evicted(plant).session(plant) is None,
        view.evicted(plant).writer(plant) is None,
        view.evicted(plant).is_connected(other) == view.is_connected(other),
        view.evicted(plant).session(other) == view.session(other),
{
    lemma_evicted_wf(view, plant);
    lemma_filter_plant(view.connected, plant);
}

/// Heartbeat suppression: with the heartbeat running, a frame sent at `sent_at`
/// puts off the next heartbeat. An activity that wakes before
/// `sent_at + interval - margin` sends nothing and sleeps on; when it does
/// send, that moment has come.
pub proof fn lemma_send_suppresses_heartbeat(
    view: ClientView,
    plant: SysInfraType,
    sent_at: u64,
    now: u64,
)
    requires
        view.wf(),
        view.heartbeat_running(plant),
    ensures
        ({
            let after = view.after_send(plant, sent_at);
            let interval = view.session(plant)->0.heartbeat_interval->0;
            &&& after.heartbeat_running(plant)
            &&& now < sent_at + interval * 1000 - SAFETY_MARGIN_MS ==> after.wake_action(plant, now)
                is SleepUntil
            &&& after.wake_action(plant, now) is Transmit ==> now >= sent_at + interval * 1000
                - SAFETY_MARGIN_MS
            &&& !(after.wake_action(plant, now) is Stop)
        }),
{
    assert(view.sessions.contains_key(plant.code()));
}

} // verus!
