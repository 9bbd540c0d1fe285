use crate::registry::{
    has_queue, insert_queue, lookup_queue, new_queues, queue_names, queues_of, remove_queue,
};
use dashmap::DashMap;
use crate::queue::Queue;
use vstd::prelude::*;
use vstd::slice::slice_to_vec;

verus! {

pub type SubscriberName = String;

/// The delivery queue of one subscriber: how many frames it can hold, and
/// the frames that wait in it, oldest first.
pub struct QueueView {
    pub capacity: nat,
    pub pending: Seq<Seq<u8>>,
}

impl QueueView {
    /// An empty queue that can hold `capacity` frames.
    pub open spec fn empty(capacity: nat) -> QueueView {
        QueueView { capacity, pending: Seq::empty() }
    }

    /// The queue holds as many frames as it can.
    pub open spec fn is_full(self) -> bool {
        self.pending.len() >= self.capacity
    }

    /// The queue after a frame was offered to it: a queue with room takes the
    /// frame at its end, a full queue stays as it is and the frame is dropped.
    pub open spec fn offer(self, frame: Seq<u8>) -> QueueView {
        if self.is_full() {
            self
        } else {
            QueueView { capacity: self.capacity, pending: self.pending.push(frame) }
        }
    }

    /// The queue after its oldest frame was taken out.
    pub open spec fn without_first(self) -> QueueView {
        QueueView { capacity: self.capacity, pending: self.pending.skip(1) }
    }
}

/// The queues of a broadcaster without subscribers.
pub open spec fn no_subscribers() -> Map<Seq<char>, QueueView> {
    Map::empty()
}

/// What a new subscriber of that name replaces: the number of frames waiting
/// in the queue of the subscriber that holds the name, if one does.
pub open spec fn replaced_frames(queues: Map<Seq<char>, QueueView>, name: Seq<char>) -> Option<
    usize,
> {
    if queues.contains_key(name) {
        Some(queues[name].pending.len() as usize)
    } else {
        None
    }
}

/// The queues after a frame was offered to each of them.
pub open spec fn offered(queues: Map<Seq<char>, QueueView>, frame: Seq<u8>) -> Map<
    Seq<char>,
    QueueView,
> {
    queues.map_values(|queue: QueueView| queue.offer(frame))
}

/// Broadcast isolation, delivery: a broadcast keeps every subscriber
/// registered, and each queue with room ends with the frame, whatever the
/// other queues look like.
pub proof fn lemma_frame_reaches_each_queue(
    queues: Map<Seq<char>, QueueView>,
    frame: Seq<u8>,
    name: Seq<char>,
)
    requires
        queues.contains_key(name),
    ensures
        offered(queues, frame).contains_key(name),
        offered(queues, frame).dom() == queues.dom(),
        !queues[name].is_full() ==> offered(queues, frame)[name].pending
            == queues[name].pending.push(frame),
        offered(queues, frame)[name].capacity == queues[name].capacity,
{
    assert(offered(queues, frame).dom() =~= queues.dom());
}

/// Broadcast isolation, a full queue: the frame is dropped for the
/// subscriber whose queue is full, and for that subscriber only. What
/// another subscriber receives does not depend on it.
pub proof fn lemma_full_queue_drops_for_itself_only(
    queues: Map<Seq<char>, QueueView>,
    frame: Seq<u8>,
    full: Seq<char>,
    other: Seq<char>,
)
    requires
        queues.contains_key(full),
        queues.contains_key(other),
        queues[full].is_full(),
        full != other,
    ensures
        offered(queues, frame)[full] == queues[full],
        offered(queues, frame)[other] == queues[other].offer(frame),
        offered(queues, frame)[other] == offered(queues.remove(full), frame)[other],
{
}

/// Frames leave a queue in the order in which they entered it.
pub proof fn lemma_queue_keeps_order(queue: QueueView, first: Seq<u8>, second: Seq<u8>)
    requires
        queue.pending.len() + 2 <= queue.capacity,
    ensures
        queue.offer(first).offer(second).pending == queue.pending.push(first).push(second),
        queue.pending.len() == 0 ==> queue.offer(first).offer(second).pending[0] == first
            && queue.offer(first).offer(second).without_first().pending[0] == second,
{
}

/// Broadcast isolation, unsubscribing: removing one subscriber leaves every
/// other subscriber registered with the queue it had.
pub proof fn lemma_unsubscribe_leaves_others(
    queues: Map<Seq<char>, QueueView>,
    gone: Seq<char>,
    other: Seq<char>,
)
    requires
        queues.contains_key(other),
        gone != other,
    ensures
        !queues.remove(gone).contains_key(gone),
        queues.remove(gone).contains_key(other),
        queues.remove(gone)[other] == queues[other],
{
}

/// Fan-out to two fresh subscribers: where two subscribers wait with empty
/// queues, each of them holds the frame, once and alone, after the frame was
/// offered to all.
pub proof fn lemma_fresh_subscribers_receive_the_frame(
    queues: Map<Seq<char>, QueueView>,
    frame: Seq<u8>,
    a: Seq<char>,
    b: Seq<char>,
)
    requires
        queues.contains_key(a),
        queues.contains_key(b),
        a != b,
        queues[a].pending.len() == 0,
        queues[b].pending.len() == 0,
        queues[a].capacity >= 1,
        queues[b].capacity >= 1,
    ensures
        offered(queues, frame)[a].pending == seq![frame],
        offered(queues, frame)[b].pending == seq![frame],
{
    assert(queues[a].pending.push(frame) == seq![frame]);
    assert(queues[b].pending.push(frame) == seq![frame]);
}

impl View for Queue {
    type V = QueueView;

    open spec fn view(&self) -> QueueView {
        QueueView { capacity: self.bound(), pending: self.waiting() }
    }
}

/// The view of every queue in the map.
pub open spec fn views(queues: Map<Seq<char>, Queue>) -> Map<Seq<char>, QueueView> {
    queues.map_values(|queue: Queue| queue@)
}

/// Every queue in the map is well-formed.
pub open spec fn all_wf(queues: Map<Seq<char>, Queue>) -> bool {
    forall|name: Seq<char>| #[trigger] queues.contains_key(name) ==> queues[name].wf()
}

/// Binding a well-formed queue leaves every queue in the map well-formed.
proof fn lemma_insert_keeps_wf(queues: Map<Seq<char>, Queue>, name: Seq<char>, queue: Queue)
    requires
        all_wf(queues),
        queue.wf(),
    ensures
        all_wf(queues.insert(name, queue)),
{
    assert forall|other: Seq<char>| #[trigger]
        queues.insert(name, queue).contains_key(other) implies queues.insert(
        name,
        queue,
    )[other].wf() by {
        if other != name {
            assert(queues.contains_key(other));
        }
    }
}

/// Unbinding a name leaves every queue in the map well-formed.
proof fn lemma_remove_keeps_wf(queues: Map<Seq<char>, Queue>, name: Seq<char>)
    requires
        all_wf(queues),
    ensures
        all_wf(queues.remove(name)),
{
    assert forall|other: Seq<char>| #[trigger]
        queues.remove(name).contains_key(other) implies queues.remove(name)[other].wf() by {
        assert(queues.contains_key(other));
    }
}

/// The fan-out of one plant: a set of named subscribers, each with a bounded
/// queue of frames that it has not taken yet.
pub struct Broadcaster {
    subscribers: DashMap<String, Queue>,
}

impl View for Broadcaster {
    type V = Map<Seq<char>, QueueView>;

    /// The queue of every subscriber, by subscriber name.
    closed spec fn view(&self) -> Map<Seq<char>, QueueView> {
        views(queues_of(self.subscribers))
    }
}

impl Broadcaster {
    /// No queue holds more frames than its capacity, which is at least one.
    pub closed spec fn wf(&self) -> bool {
        all_wf(queues_of(self.subscribers))
    }

    /// In a well-formed broadcaster every queue is within its capacity.
    pub proof fn lemma_queues_bounded(&self, name: Seq<char>)
        requires
            self.wf(),
            self@.contains_key(name),
        ensures
            0 < self@[name].capacity,
            self@[name].pending.len() <= self@[name].capacity,
    {
        assert(queues_of(self.subscribers).contains_key(name));
        queues_of(self.subscribers)[name].lemma_within_bound();
    }

    /// A broadcaster without subscribers.
    pub fn new() -> (hub: Self)
        ensures
            hub.wf(),
            hub@ == no_subscribers(),
    {
        let hub = Self { subscribers: new_queues() };
        proof {
            assert forall|name: Seq<char>| !queues_of(hub.subscribers).contains_key(name) by {
                assert(!queues_of(hub.subscribers).dom().contains(name));
            }
            assert(hub@ =~= no_subscribers());
        }
        hub
    }

    /// Tells whether a subscriber of that name is registered.
    pub fn is_subscribed(&self, subscriber_name: &SubscriberName) -> (b: bool)
        ensures
            b == self@.contains_key(subscriber_name@),
    {
        has_queue(&self.subscribers, subscriber_name.as_str())
    }

    /// Registers a subscriber with an empty queue of the given capacity. A
    /// subscriber already registered under the name is replaced: its queue is
    /// discarded, and the answer tells how many frames were still waiting in
    /// it. The answer is `None` for a name that was not registered.
    pub fn subscribe(&mut self, subscriber_name: SubscriberName, buffer_size: usize) -> (discarded:
        Option<usize>)
        requires
            old(self).wf(),
            0 < buffer_size <= usize::MAX / 8,
        ensures
            final(self).wf(),
            final(self)@ == old(self)@.insert(
                subscriber_name@,
                QueueView::empty(buffer_size as nat),
            ),
            discarded == replaced_frames(old(self)@, subscriber_name@),
    {
        let fresh = Queue::with_bound(buffer_size);
        assert(fresh@.pending == Seq::<Seq<u8>>::empty());
        let previous = insert_queue(&mut self.subscribers, subscriber_name, fresh);
        proof {
            assert(self@ =~= old(self)@.insert(subscriber_name@, fresh@));
            lemma_insert_keeps_wf(queues_of(old(self).subscribers), subscriber_name@, fresh);
        }
        match previous {
            Some(queue) => {
                assert(queues_of(old(self).subscribers).contains_key(subscriber_name@));
                Some(queue.waiting_len())
            },
            None => None,
        }
    }

    /// Removes the subscriber of that name together with its queue. Nothing
    /// happens when no such subscriber is registered.
    pub fn unsubscribe(&mut self, subscriber_name: &SubscriberName)
        requires
            old(self).wf(),
        ensures
            final(self).wf(),
            final(self)@ == old(self)@.remove(subscriber_name@),
            !final(self)@.contains_key(subscriber_name@),
    {
        let _ = remove_queue(&mut self.subscribers, subscriber_name.as_str());
        proof {
            assert(self@ =~= old(self)@.remove(subscriber_name@));
            lemma_remove_keeps_wf(queues_of(old(self).subscribers), subscriber_name@);
        }
    }

    /// Offers a copy of the frame to every subscriber. A subscriber whose
    /// queue is full misses the frame; the others are not affected by that,
    /// and nothing is reported back.
    pub fn broadcast(&mut self, message: Vec<u8>)
        requires
            old(self).wf(),
        ensures
            final(self).wf(),
            final(self)@ == offered(old(self)@, message@),
    {
        let names = queue_names(&self.subscribers);
        let ghost before = queues_of(self.subscribers);
        let mut i: usize = 0;
        while i < names.len()
            invariant
                i <= names@.len(),
                before == queues_of(old(self).subscribers),
                forall|a: int, b: int|
                    0 <= a < b < names@.len() ==> (#[trigger] names@[a])@ != (
                    #[trigger] names@[b])@,
                forall|k: int| 0 <= k < names@.len() ==> before.contains_key((#[trigger] names@[k])@),
                forall|name: Seq<char>|
                    before.contains_key(name) ==> exists|k: int|
                        0 <= k < names@.len() && (#[trigger] names@[k])@ == name,
                self.wf(),
                forall|name: Seq<char>|
                    queues_of(self.subscribers).contains_key(name) <==> before.contains_key(name),
                forall|k: int|
                    0 <= k < i ==> queues_of(self.subscribers)[(#[trigger] names@[k])@]@
                        == before[names@[k]@]@.offer(message@),
                forall|k: int|
                    i <= k < names@.len() ==> queues_of(self.subscribers)[(#[trigger] names@[k])@]
                        == before[names@[k]@],
            decreases names@.len() - i,
        {
            let ghost held = queues_of(self.subscribers);
            let ghost name = names@[i as int]@;
            assert(held.contains_key(name));
            match remove_queue(&mut self.subscribers, names[i].as_str()) {
                Some(queue) => {
                    let mut queue = queue;
                    assert(queue.wf());
                    let _ = queue.offer(slice_to_vec(message.as_slice()));
                    let _ = insert_queue(&mut self.subscribers, names[i].clone(), queue);
                    proof {
                        let now = queues_of(self.subscribers);
                        assert(now == held.remove(name).insert(name, queue));
                        lemma_remove_keeps_wf(held, name);
                        lemma_insert_keeps_wf(held.remove(name), name, queue);
                        assert forall|k: int| 0 <= k < i implies now[(#[trigger] names@[k])@]@
                            == before[names@[k]@]@.offer(message@) by {
                            assert(names@[k]@ != names@[i as int]@);
                        }
                        assert forall|k: int| i < k < names@.len() implies now[(
                        #[trigger] names@[k])@] == before[names@[k]@] by {
                            assert(names@[i as int]@ != names@[k]@);
                        }
                    }
                },
                None => {},
            }
            i += 1;
        }
        proof {
            let after = self@;
            let expected = offered(old(self)@, message@);
            assert forall|name: Seq<char>| after.contains_key(name) implies after[name]
                == expected[name] by {
                assert(before.contains_key(name));
                let k = choose|k: int| 0 <= k < names@.len() && (#[trigger] names@[k])@ == name;
                assert(queues_of(self.subscribers)[names@[k]@]@ == before[names@[k]@]@.offer(
                    message@,
                ));
            }
            assert(after =~= expected);
        }
    }

    /// Takes the oldest waiting frame out of a subscriber's queue. The answer
    /// is `None` when the queue is empty or no such subscriber is registered.
    pub fn receive(&mut self, subscriber_name: &SubscriberName) -> (frame: Option<Vec<u8>>)
        requires
            old(self).wf(),
        ensures
            final(self).wf(),
            match frame {
                Some(bytes) => {
                    &&& old(self)@.contains_key(subscriber_name@)
                    &&& old(self)@[subscriber_name@].pending.len() > 0
                    &&& bytes@ == old(self)@[subscriber_name@].pending[0]
                    &&& final(self)@ == old(self)@.insert(
                        subscriber_name@,
                        old(self)@[subscriber_name@].without_first(),
                    )
                },
                None => {
                    &&& final(self)@ == old(self)@
                    &&& old(self)@.contains_key(subscriber_name@) ==> old(self)@[subscriber_name@].pending.len() == 0
                },
            },
    {
        let ghost held = queues_of(self.subscribers);
        match remove_queue(&mut self.subscribers, subscriber_name.as_str()) {
            None => {
                proof {
                    assert(self@ =~= old(self)@);
                    lemma_remove_keeps_wf(held, subscriber_name@);
                }
                None
            },
            Some(queue) => {
                let mut queue = queue;
                assert(held.contains_key(subscriber_name@));
                let taken = queue.take();
                let _ = insert_queue(&mut self.subscribers, subscriber_name.clone(), queue);
                proof {
                    lemma_remove_keeps_wf(held, subscriber_name@);
                    lemma_insert_keeps_wf(held.remove(subscriber_name@), subscriber_name@, queue);
                    if taken is Some {
                        assert(queue@.pending == held[subscriber_name@]@.pending.skip(1));
                        assert(self@ =~= old(self)@.insert(
                            subscriber_name@,
                            old(self)@[subscriber_name@].without_first(),
                        ));
                    } else {
                        assert(queue@.pending == held[subscriber_name@]@.pending);
                        assert(self@ =~= old(self)@);
                    }
                }
                taken
            },
        }
    }
}

} // verus!
