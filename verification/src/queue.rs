use tokio::sync::mpsc::{channel, Receiver, Sender};
use vstd::prelude::*;

verus! {

/// `tokio::sync::mpsc::Sender`, the sending end of a bounded channel.
#[verifier::external_type_specification]
#[verifier::external_body]
#[verifier::reject_recursive_types(T)]
pub struct ExSender<T>(Sender<T>);

/// `tokio::sync::mpsc::Receiver`, the receiving end of a bounded channel.
#[verifier::external_type_specification]
#[verifier::external_body]
#[verifier::reject_recursive_types(T)]
pub struct ExReceiver<T>(Receiver<T>);

/// The frames that wait in the channel behind the receiver, oldest first.
pub uninterp spec fn waiting_in(rx: Receiver<Vec<u8>>) -> Seq<Seq<u8>>;

/// The number of frames that the channel behind the receiver was made to
/// hold.
pub uninterp spec fn bound_of(rx: Receiver<Vec<u8>>) -> nat;

/// The sender is the one sending end of the channel behind the receiver.
pub uninterp spec fn feeds(tx: Sender<Vec<u8>>, rx: Receiver<Vec<u8>>) -> bool;

/// `tokio::sync::mpsc::channel`: the two ends of an empty channel that holds
/// up to `buffer` frames. tokio refuses a buffer of zero and one of more than
/// an eighth of the address space.
#[verifier::external_body]
pub(crate) fn open(buffer: usize) -> (ends: (Sender<Vec<u8>>, Receiver<Vec<u8>>))
    requires
        0 < buffer <= usize::MAX / 8,
    ensures
        feeds(ends.0, ends.1),
        waiting_in(ends.1).len() == 0,
        bound_of(ends.1) == buffer,
{
    channel(buffer)
}

/// `Sender::try_send`: a channel with room takes the frame at its end; a
/// full channel refuses the frame and stays as it is. The receiver is taken
/// along to show that nobody reads meanwhile, and that the channel is open.
#[verifier::external_body]
#[allow(unused_variables)]
pub(crate) fn try_send(tx: &Sender<Vec<u8>>, rx: &mut Receiver<Vec<u8>>, frame: Vec<u8>) -> (sent:
    bool)
    requires
        feeds(*tx, *old(rx)),
    ensures
        feeds(*tx, *final(rx)),
        bound_of(*final(rx)) == bound_of(*old(rx)),
        sent == (waiting_in(*old(rx)).len() < bound_of(*old(rx))),
        waiting_in(*final(rx)) == (if sent {
            waiting_in(*old(rx)).push(frame@)
        } else {
            waiting_in(*old(rx))
        }),
{
    tx.try_send(frame).is_ok()
}

/// `Receiver::try_recv`: takes the oldest frame out of the channel, or
/// nothing out of an empty one. The sender is taken along to show that the
/// channel is open and that nobody sends meanwhile.
#[verifier::external_body]
#[allow(unused_variables)]
pub(crate) fn try_recv(tx: &Sender<Vec<u8>>, rx: &mut Receiver<Vec<u8>>) -> (frame: Option<
    Vec<u8>,
>)
    requires
        feeds(*tx, *old(rx)),
    ensures
        feeds(*tx, *final(rx)),
        bound_of(*final(rx)) == bound_of(*old(rx)),
        match frame {
            Some(bytes) => waiting_in(*old(rx)).len() > 0 && bytes@ == waiting_in(*old(rx))[0]
                && waiting_in(*final(rx)) == waiting_in(*old(rx)).skip(1),
            None => waiting_in(*old(rx)).len() == 0 && waiting_in(*final(rx)) == waiting_in(
                *old(rx),
            ),
        },
{
    rx.try_recv().ok()
}

/// `Receiver::len`: the number of frames that wait in the channel.
#[verifier::external_body]
pub(crate) fn len(rx: &Receiver<Vec<u8>>) -> (n: usize)
    ensures
        n == waiting_in(*rx).len(),
{
    rx.len()
}

/// The bounded delivery queue of one subscriber: a channel with both of its
/// ends, so that nobody else sends into it or reads from it.
pub struct Queue {
    tx: Sender<Vec<u8>>,
    rx: Receiver<Vec<u8>>,
}

impl Queue {
    /// The two ends belong to one channel, which can hold a frame and holds
    /// no more than it can.
    pub closed spec fn wf(&self) -> bool {
        &&& feeds(self.tx, self.rx)
        &&& 0 < bound_of(self.rx)
        &&& waiting_in(self.rx).len() <= bound_of(self.rx)
    }

    /// The frames that wait in the queue, oldest first.
    pub closed spec fn waiting(&self) -> Seq<Seq<u8>> {
        waiting_in(self.rx)
    }

    /// The number of frames that the queue can hold.
    pub closed spec fn bound(&self) -> nat {
        bound_of(self.rx)
    }

    /// A well-formed queue is within its bound.
    pub proof fn lemma_within_bound(&self)
        requires
            self.wf(),
        ensures
            0 < self.bound(),
            self.waiting().len() <= self.bound(),
    {
    }

    /// An empty queue that holds up to `buffer` frames.
    pub fn with_bound(buffer: usize) -> (queue: Queue)
        requires
            0 < buffer <= usize::MAX / 8,
        ensures
            queue.wf(),
            queue.waiting() == Seq::<Seq<u8>>::empty(),
            queue.bound() == buffer,
    {
        let (tx, rx) = open(buffer);
        assert(waiting_in(rx) =~= Seq::<Seq<u8>>::empty());
        Queue { tx, rx }
    }

    /// Offers a frame to the queue. A queue with room takes it at its end; a
    /// full queue stays as it is, and the frame is dropped.
    pub fn offer(&mut self, frame: Vec<u8>) -> (taken: bool)
        requires
            old(self).wf(),
        ensures
            final(self).wf(),
            final(self).bound() == old(self).bound(),
            taken == (old(self).waiting().len() < old(self).bound()),
            final(self).waiting() == (if taken {
                old(self).waiting().push(frame@)
            } else {
                old(self).waiting()
            }),
    {
        try_send(&self.tx, &mut self.rx, frame)
    }

    /// Takes the oldest frame out of the queue, or nothing out of an empty
    /// one.
    pub fn take(&mut self) -> (frame: Option<Vec<u8>>)
        requires
            old(self).wf(),
        ensures
            final(self).wf(),
            final(self).bound() == old(self).bound(),
            match frame {
                Some(bytes) => old(self).waiting().len() > 0 && bytes@ == old(self).waiting()[0]
                    && final(self).waiting() == old(self).waiting().skip(1),
                None => old(self).waiting().len() == 0 && final(self).waiting() == old(
                    self,
                ).waiting(),
            },
    {
        try_recv(&self.tx, &mut self.rx)
    }

    /// The number of frames that wait in the queue.
    pub fn waiting_len(&self) -> (n: usize)
        ensures
            n == self.waiting().len(),
    {
        len(&self.rx)
    }
}

} // verus!
