use vstd::prelude::*;

verus! {

/// Error of a send into a channel whose receiving side was torn down.
#[derive(Clone, Copy, Debug, PartialEq, Eq, Structural)]
pub struct ChannelClosed;

/// Mathematical model of a channel: the messages not yet delivered, oldest
/// first, and whether the receiving side has been torn down.
pub struct ChannelModel {
    pub pending: Seq<bool>,
    pub closed: bool,
}

/// Unbounded queue of boolean notifications ("set enabled to this value"),
/// delivered to its single consumer in the order in which they were sent.
#[derive(Debug)]
pub struct NotificationChannel {
    pending: Vec<bool>,
    closed: bool,
}

/// The model after sending `v`, and whether the send succeeded.
pub open spec fn send_model(c: ChannelModel, v: bool) -> (ChannelModel, bool) {
    if c.closed {
        (c, false)
    } else {
        (ChannelModel { pending: c.pending.push(v), closed: false }, true)
    }
}

/// The model after the consumer takes one message, and that message.
pub open spec fn recv_model(c: ChannelModel) -> (ChannelModel, Option<bool>) {
    if c.pending.len() == 0 {
        (c, None)
    } else {
        (ChannelModel { pending: c.pending.drop_first(), closed: c.closed }, Some(c.pending[0]))
    }
}

/// The model after teardown of the receiving side: undelivered messages are dropped.
pub open spec fn close_model(c: ChannelModel) -> ChannelModel {
    ChannelModel { pending: Seq::empty(), closed: true }
}

/// The model after sending each value of `vs` in turn.
pub open spec fn send_all(c: ChannelModel, vs: Seq<bool>) -> ChannelModel
    decreases vs.len(),
{
    if vs.len() == 0 {
        c
    } else {
        send_all(send_model(c, vs[0]).0, vs.drop_first())
    }
}

/// The values that the consumer receives, in order, when it drains the channel.
pub open spec fn drained(c: ChannelModel) -> Seq<bool>
    decreases c.pending.len(),
{
    if c.pending.len() == 0 {
        Seq::empty()
    } else {
        seq![c.pending[0]].add(drained(recv_model(c).0))
    }
}

impl View for NotificationChannel {
    type V = ChannelModel;

    closed spec fn view(&self) -> ChannelModel {
        ChannelModel { pending: self.pending@, closed: self.closed }
    }
}

impl NotificationChannel {
    /// An open channel with nothing pending.
    pub fn new() -> (c: NotificationChannel)
        ensures
            c@ == (ChannelModel { pending: Seq::empty(), closed: false }),
    {
        NotificationChannel { pending: Vec::new(), closed: false }
    }

    /// Queues `v` for the consumer; fails without effect once the channel is closed.
    pub fn send(&mut self, v: bool) -> (r: Result<(), ChannelClosed>)
        ensures
            (final(self)@, r is Ok) == send_model(old(self)@, v),
    {
        if self.closed {
            Err(ChannelClosed)
        } else {
            self.pending.push(v);
            Ok(())
        }
    }

    /// Takes the oldest undelivered message, if any.
    pub fn recv(&mut self) -> (r: Option<bool>)
        ensures
            (final(self)@, r) == recv_model(old(self)@),
    {
        if self.pending.len() == 0 {
            None
        } else {
            let v = self.pending.remove(0);
            Some(v)
        }
    }

    /// Tears down the receiving side: later sends fail, pending messages are dropped.
    pub fn close(&mut self)
        ensures
            final(self)@ == close_model(old(self)@),
    {
        self.pending.clear();
        self.closed = true;
    }

    pub fn is_closed(&self) -> (r: bool)
        ensures
            r == self@.closed,
    {
        self.closed
    }

    /// Number of messages not yet delivered.
    pub fn len(&self) -> (r: usize)
        ensures
            r == self@.pending.len(),
    {
        self.pending.len()
    }
}

/// Messages from one sender reach the consumer in the order in which they
/// were sent: after sending `vs` into an open channel, draining it yields what
/// was already pending followed by `vs`, in order. A closed channel accepts
/// nothing.
pub proof fn lemma_fifo_per_sender(c: ChannelModel, vs: Seq<bool>)
    ensures
        !c.closed ==> drained(send_all(c, vs)) == c.pending + vs,
        c.closed ==> send_all(c, vs) == c,
    decreases vs.len(),
{
    if vs.len() == 0 {
        lemma_drained_is_pending(c);
        assert(c.pending + vs =~= c.pending);
    } else {
        lemma_fifo_per_sender(send_model(c, vs[0]).0, vs.drop_first());
        if !c.closed {
            assert(c.pending.push(vs[0]) + vs.drop_first() =~= c.pending + vs);
        }
    }
}

/// Draining a channel yields exactly its pending messages, oldest first.
pub proof fn lemma_drained_is_pending(c: ChannelModel)
    ensures
        drained(c) == c.pending,
    decreases c.pending.len(),
{
    if c.pending.len() > 0 {
        lemma_drained_is_pending(recv_model(c).0);
        assert(seq![c.pending[0]].add(c.pending.drop_first()) =~= c.pending);
    }
}

} // verus!
