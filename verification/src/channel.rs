use crate::params::ControlMessage;
use std::collections::VecDeque;
use vstd::prelude::*;

verus! {

/// The other end of the channel is gone.
#[derive(Clone, Copy, Debug, PartialEq, Eq, Structural)]
pub struct Closed;

/// The channel that carries control messages from the actor that holds the parameters to
/// the other one: one sending end, one receiving end, and between them the messages that
/// were sent and not yet received, oldest first.
///
/// The channel keeps account, in ghost state, of every message it ever took and every
/// message it ever handed out. While it is well formed, what was handed out, followed by
/// what is waiting, is what was taken: nothing is lost, doubled or overtaken.
pub struct ControlChannel {
    waiting: VecDeque<ControlMessage>,
    sender_open: bool,
    receiver_open: bool,
    sent: Ghost<Seq<ControlMessage>>,
    delivered: Ghost<Seq<ControlMessage>>,
}

impl ControlChannel {
    /// Whether the channel's account is in order: what was handed out, followed by what is
    /// waiting, is what was taken. Every channel that `new` made and that was used through
    /// its methods is in order.
    pub closed spec fn well_formed(&self) -> bool {
        self.delivered@ + self.waiting@ == self.sent@
    }

    /// The messages that were sent and not yet received, oldest first.
    pub closed spec fn pending(&self) -> Seq<ControlMessage> {
        self.waiting@
    }

    /// Every message that the channel has taken, in the order of sending.
    pub closed spec fn sent(&self) -> Seq<ControlMessage> {
        self.sent@
    }

    /// Every message that the channel has handed out, in the order of receiving.
    pub closed spec fn delivered(&self) -> Seq<ControlMessage> {
        self.delivered@
    }

    /// Whether the sending end is still there.
    pub closed spec fn sender_open(&self) -> bool {
        self.sender_open
    }

    /// Whether the receiving end is still there.
    pub closed spec fn receiver_open(&self) -> bool {
        self.receiver_open
    }

    /// Messages come out in the order in which they went in: what was received so far is
    /// the beginning of what was sent, and what is waiting is the rest of it.
    pub proof fn lemma_delivery_order(&self)
        requires
            self.well_formed(),
        ensures
            self.delivered() + self.pending() == self.sent(),
            self.delivered().len() <= self.sent().len(),
            forall|i: int|
                0 <= i < self.delivered().len() ==> self.delivered()[i] == self.sent()[i],
    {
        assert forall|i: int| 0 <= i < self.delivered().len() implies self.delivered()[i]
            == self.sent()[i] by {
            assert((self.delivered@ + self.waiting@)[i] == self.delivered@[i]);
        }
    }

    /// A channel with both ends in place and nothing sent.
    pub fn new() -> (r: ControlChannel)
        ensures
            r.well_formed(),
            r.sender_open(),
            r.receiver_open(),
            r.pending() == Seq::<ControlMessage>::empty(),
            r.sent() == Seq::<ControlMessage>::empty(),
            r.delivered() == Seq::<ControlMessage>::empty(),
    {
        let r = ControlChannel {
            waiting: VecDeque::new(),
            sender_open: true,
            receiver_open: true,
            sent: Ghost(Seq::empty()),
            delivered: Ghost(Seq::empty()),
        };
        assert(r.delivered@ + r.waiting@ =~= r.sent@);
        r
    }

    /// Sends `message`. While both ends are there the message joins the waiting ones, behind
    /// all of them. Once an end is gone the message is turned down and nothing changes.
    pub fn send(&mut self, message: ControlMessage) -> (r: Result<(), Closed>)
        requires
            old(self).well_formed(),
        ensures
            final(self).well_formed(),
            r is Ok <==> old(self).sender_open() && old(self).receiver_open(),
            r is Ok ==> final(self).pending() == old(self).pending().push(message),
            r is Ok ==> final(self).sent() == old(self).sent().push(message),
            r is Err ==> final(self).pending() == old(self).pending(),
            r is Err ==> final(self).sent() == old(self).sent(),
            final(self).delivered() == old(self).delivered(),
            final(self).sender_open() == old(self).sender_open(),
            final(self).receiver_open() == old(self).receiver_open(),
    {
        if !self.sender_open || !self.receiver_open {
            return Err(Closed);
        }
        self.waiting.push_back(message);
        proof {
            self.sent@ = self.sent@.push(message);
            assert(self.delivered@ + self.waiting@ =~= self.sent@);
        }
        Ok(())
    }

    /// Takes the oldest waiting message, if there is one. `Ok(None)` says that nothing is
    /// waiting and the sender may still send; `Err(Closed)` that nothing is waiting and
    /// nothing will come, because the sending end is gone, or that the receiving end itself
    /// is gone.
    pub fn receive(&mut self) -> (r: Result<Option<ControlMessage>, Closed>)
        requires
            old(self).well_formed(),
        ensures
            final(self).well_formed(),
            match r {
                Ok(Some(message)) => {
                    &&& old(self).receiver_open()
                    &&& old(self).pending().len() > 0
                    &&& message == old(self).pending()[0]
                    &&& final(self).pending() == old(self).pending().skip(1)
                    &&& final(self).delivered() == old(self).delivered().push(message)
                },
                Ok(None) => {
                    &&& old(self).receiver_open()
                    &&& old(self).sender_open()
                    &&& old(self).pending().len() == 0
                    &&& final(self).pending() == old(self).pending()
                    &&& final(self).delivered() == old(self).delivered()
                },
                Err(_) => {
                    &&& !old(self).receiver_open() || (!old(self).sender_open()
                        && old(self).pending().len() == 0)
                    &&& final(self).pending() == old(self).pending()
                    &&& final(self).delivered() == old(self).delivered()
                },
            },
            final(self).sent() == old(self).sent(),
            final(self).sender_open() == old(self).sender_open(),
            final(self).receiver_open() == old(self).receiver_open(),
    {
        if !self.receiver_open {
            return Err(Closed);
        }
        match self.waiting.pop_front() {
            Some(message) => {
                proof {
                    self.delivered@ = self.delivered@.push(message);
                    assert(self.delivered@ + self.waiting@ =~= self.sent@);
                    assert(self.waiting@ =~= old(self).waiting@.skip(1));
                }
                Ok(Some(message))
            },
            None => if self.sender_open {
                Ok(None)
            } else {
                Err(Closed)
            },
        }
    }

    /// Takes the sending end away. What is waiting can still be received.
    pub fn close_sender(&mut self)
        requires
            old(self).well_formed(),
        ensures
            final(self).well_formed(),
            !final(self).sender_open(),
            final(self).receiver_open() == old(self).receiver_open(),
            final(self).pending() == old(self).pending(),
            final(self).sent() == old(self).sent(),
            final(self).delivered() == old(self).delivered(),
    {
        self.sender_open = false;
    }

    /// Takes the receiving end away. What is waiting stays where it is, unread.
    pub fn close_receiver(&mut self)
        requires
            old(self).well_formed(),
        ensures
            final(self).well_formed(),
            !final(self).receiver_open(),
            final(self).sender_open() == old(self).sender_open(),
            final(self).pending() == old(self).pending(),
            final(self).sent() == old(self).sent(),
            final(self).delivered() == old(self).delivered(),
    {
        self.receiver_open = false;
    }

    /// How many messages are waiting.
    pub fn waiting(&self) -> (r: usize)
        ensures
            r == self.pending().len(),
    {
        self.waiting.len()
    }

    /// Whether a message sent now would be taken.
    pub fn is_open(&self) -> (r: bool)
        ensures
            r == (self.sender_open() && self.receiver_open()),
    {
        self.sender_open && self.receiver_open
    }
}

} // verus!
