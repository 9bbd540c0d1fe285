use crate::queue::Queue;
use dashmap::DashMap;
use vstd::prelude::*;

verus! {

/// What the registry keeps for one connected plant.
#[derive(Debug)]
pub struct Session {
    /// The endpoint name that the server assigned during the handshake.
    pub system_name: String,
    /// The transport's id for the write half; `None` once the handle was
    /// dropped after a failed transmission.
    pub writer: Option<u64>,
    /// The heartbeat interval agreed at login, in seconds.
    pub heartbeat_interval: Option<u64>,
    /// When the last frame went out, in milliseconds of the caller's clock.
    pub last_message_time: Option<u64>,
    /// Whether the plant's heartbeat activity is running.
    pub heartbeat_running: bool,
}

impl Session {
    /// A running heartbeat has a write half to send on, an interval to keep
    /// and a time from which the interval counts.
    pub open spec fn wf(self) -> bool {
        self.heartbeat_running ==> self.writer is Some && self.heartbeat_interval is Some
            && self.last_message_time is Some
    }

    /// Copies the record.
    pub fn duplicate(&self) -> (copy: Session)
        ensures
            copy == *self,
    {
        Session {
            system_name: self.system_name.clone(),
            writer: self.writer,
            heartbeat_interval: self.heartbeat_interval,
            last_message_time: self.last_message_time,
            heartbeat_running: self.heartbeat_running,
        }
    }
}

/// `dashmap::DashMap`, the concurrent map that holds the sessions. Nothing of
/// its inside is visible to the proofs; what it holds is told by
/// `sessions_of`.
#[verifier::external_type_specification]
#[verifier::external_body]
#[verifier::reject_recursive_types(K)]
#[verifier::reject_recursive_types(V)]
#[verifier::reject_recursive_types(S)]
pub struct ExDashMap<K, V, S>(DashMap<K, V, S>);

/// The largest capacity that a session map is created with.
pub const MAX_INITIAL_CAPACITY: usize = 1024;

/// The sessions that a map holds, by plant code. The map is only ever reached
/// through the four functions below, which say how each call changes it. They
/// change it through an exclusive reference, though the map itself would make
/// do with a shared one: what a shared reference sees must not change under
/// it.
pub uninterp spec fn sessions_of(map: DashMap<i32, Session>) -> Map<i32, Session>;

/// `DashMap::with_capacity`: a map that holds nothing yet. The capacity is
/// kept small so that rounding it up to the shard count cannot overflow.
#[verifier::external_body]
pub(crate) fn with_capacity(capacity: usize) -> (map: DashMap<i32, Session>)
    requires
        capacity <= MAX_INITIAL_CAPACITY,
    ensures
        sessions_of(map).dom() == Set::<i32>::empty(),
{
    DashMap::with_capacity(capacity)
}

/// `DashMap::insert`: binds `code` to `session` and hands back the session
/// that was bound to it before, if there was one.
#[verifier::external_body]
pub(crate) fn insert(map: &mut DashMap<i32, Session>, code: i32, session: Session) -> (previous:
    Option<Session>)
    ensures
        sessions_of(*final(map)) == sessions_of(*old(map)).insert(code, session),
        previous == lookup(sessions_of(*old(map)), code),
{
    map.insert(code, session)
}

/// `DashMap::remove`: unbinds `code` and hands back the session that was
/// bound to it, if there was one.
#[verifier::external_body]
pub(crate) fn remove(map: &mut DashMap<i32, Session>, code: i32) -> (removed: Option<Session>)
    ensures
        sessions_of(*final(map)) == sessions_of(*old(map)).remove(code),
        removed == lookup(sessions_of(*old(map)), code),
{
    map.remove(&code).map(|entry| entry.1)
}

/// `DashMap::get`: a copy of the session bound to `code`, if there is one.
#[verifier::external_body]
pub(crate) fn get(map: &DashMap<i32, Session>, code: i32) -> (found: Option<Session>)
    ensures
        found == lookup(sessions_of(*map), code),
{
    map.get(&code).map(|entry| entry.value().duplicate())
}

/// The value bound to `code` in `sessions`, if any.
pub open spec fn lookup(sessions: Map<i32, Session>, code: i32) -> Option<Session> {
    if sessions.contains_key(code) {
        Some(sessions[code])
    } else {
        None
    }
}

/// The delivery queues that a map holds, by subscriber name. This map, too,
/// is only reached through the functions below, and changed through an
/// exclusive reference only.
pub uninterp spec fn queues_of(map: DashMap<String, Queue>) -> Map<Seq<char>, Queue>;

/// The value bound to `name` in `queues`, if any.
pub open spec fn lookup_queue(queues: Map<Seq<char>, Queue>, name: Seq<char>) -> Option<Queue> {
    if queues.contains_key(name) {
        Some(queues[name])
    } else {
        None
    }
}

/// `DashMap::new`: a map that holds nothing yet.
#[verifier::external_body]
pub(crate) fn new_queues() -> (map: DashMap<String, Queue>)
    ensures
        queues_of(map).dom() == Set::<Seq<char>>::empty(),
{
    DashMap::new()
}

/// `DashMap::insert` on a map of queues: binds `name` to `queue` and hands
/// back the queue that was bound to it before, if there was one.
#[verifier::external_body]
pub(crate) fn insert_queue(map: &mut DashMap<String, Queue>, name: String, queue: Queue) -> (previous:
    Option<Queue>)
    ensures
        queues_of(*final(map)) == queues_of(*old(map)).insert(name@, queue),
        previous == lookup_queue(queues_of(*old(map)), name@),
{
    map.insert(name, queue)
}

/// `DashMap::remove` on a map of queues: unbinds `name` and hands back the
/// queue that was bound to it, if there was one.
#[verifier::external_body]
pub(crate) fn remove_queue(map: &mut DashMap<String, Queue>, name: &str) -> (removed: Option<
    Queue,
>)
    ensures
        queues_of(*final(map)) == queues_of(*old(map)).remove(name@),
        removed == lookup_queue(queues_of(*old(map)), name@),
{
    map.remove(name).map(|entry| entry.1)
}

/// `DashMap::contains_key` on a map of queues.
#[verifier::external_body]
pub(crate) fn has_queue(map: &DashMap<String, Queue>, name: &str) -> (held: bool)
    ensures
        held == queues_of(*map).contains_key(name@),
{
    map.contains_key(name)
}

/// `DashMap::iter` on a map of queues: the names that are bound, each once,
/// in the order in which the map happens to be walked.
#[verifier::external_body]
pub(crate) fn queue_names(map: &DashMap<String, Queue>) -> (names: Vec<String>)
    ensures
        forall|i: int, j: int|
            0 <= i < j < names@.len() ==> (#[trigger] names@[i])@ != (#[trigger] names@[j])@,
        forall|i: int| 0 <= i < names@.len() ==> queues_of(*map).contains_key((#[trigger] names@[i])@),
        forall|name: Seq<char>|
            queues_of(*map).contains_key(name) ==> exists|i: int|
                0 <= i < names@.len() && (#[trigger] names@[i])@ == name,
{
    map.iter().map(|entry| entry.key().clone()).collect()
}

} // verus!
