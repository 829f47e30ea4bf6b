//! Links: bounded first-in first-out channels between an output port and an
//! input port.
//!
//! A [`LinkTable`] owns the buffers; nodes hold [`LinkSender`] and
//! [`LinkReceiver`] handles. Where the asynchronous runtime would suspend, the
//! operations here return instead: a full link hands the message back, an
//! empty one yields `None`.

use std::collections::VecDeque;
use vstd::prelude::*;
use crate::message::{Message, MessageView};
use crate::types::{PortId, ZFError, ZFErrorView, ZFResult};

verus! {

/// Capacity of a link created without an explicit one.
pub const DEFAULT_LINK_CAPACITY: usize = 16;

/// Mathematical value of a link endpoint: the port it belongs to and the
/// position of its link in the table.
pub struct EndpointView {
    pub id: Seq<char>,
    pub link: nat,
}

/// The capability to push into one link.
#[derive(Debug, PartialEq, Eq)]
pub struct LinkSender {
    id: PortId,
    link: usize,
}

/// The capability to pull from one link; it names the input port it feeds.
#[derive(Debug, PartialEq, Eq)]
pub struct LinkReceiver {
    id: PortId,
    link: usize,
}

impl View for LinkSender {
    type V = EndpointView;

    closed spec fn view(&self) -> EndpointView {
        EndpointView { id: self.id@, link: self.link as nat }
    }
}

impl View for LinkReceiver {
    type V = EndpointView;

    closed spec fn view(&self) -> EndpointView {
        EndpointView { id: self.id@, link: self.link as nat }
    }
}

impl Clone for LinkSender {
    fn clone(&self) -> (r: Self)
        ensures
            r@ == self@,
    {
        LinkSender { id: self.id.clone(), link: self.link }
    }
}

impl Clone for LinkReceiver {
    fn clone(&self) -> (r: Self)
        ensures
            r@ == self@,
    {
        LinkReceiver { id: self.id.clone(), link: self.link }
    }
}

impl LinkSender {
    /// The output port this sender belongs to.
    pub fn id(&self) -> (r: PortId)
        ensures
            r@ == self@.id,
    {
        self.id.clone()
    }
}

impl LinkReceiver {
    /// The input port this receiver feeds.
    pub fn id(&self) -> (r: PortId)
        ensures
            r@ == self@.id,
    {
        self.id.clone()
    }
}

/// One message on its way into one link.
#[derive(Debug, PartialEq, Eq)]
pub struct Delivery {
    pub sender: LinkSender,
    pub message: Message,
}

impl View for Delivery {
    type V = (EndpointView, MessageView);

    open spec fn view(&self) -> (EndpointView, MessageView) {
        (self.sender@, self.message@)
    }
}

/// A list of deliveries as mathematical values.
pub open spec fn deliveries_view(d: Seq<Delivery>) -> Seq<(EndpointView, MessageView)> {
    d.map_values(|x: Delivery| x@)
}

/// Mathematical value of a link. `sent` and `received` are the histories of
/// all messages ever accepted from the sender and handed to the receiver.
pub struct LinkView {
    pub send_id: Seq<char>,
    pub recv_id: Seq<char>,
    pub capacity: nat,
    pub queue: Seq<MessageView>,
    pub sender_open: bool,
    pub receiver_open: bool,
    pub sent: Seq<MessageView>,
    pub received: Seq<MessageView>,
}

impl LinkView {
    /// A link that was just created.
    pub open spec fn fresh(send_id: Seq<char>, recv_id: Seq<char>, capacity: nat) -> LinkView {
        LinkView {
            send_id,
            recv_id,
            capacity,
            queue: Seq::empty(),
            sender_open: true,
            receiver_open: true,
            sent: Seq::empty(),
            received: Seq::empty(),
        }
    }

    /// The buffer respects the capacity, and what was sent is what was
    /// received followed by what is still buffered.
    pub open spec fn wf(self) -> bool {
        &&& self.queue.len() <= self.capacity
        &&& self.sent == self.received + self.queue
    }

    /// The link once `m` was accepted from the sender.
    pub open spec fn pushed(self, m: MessageView) -> LinkView {
        LinkView { queue: self.queue.push(m), sent: self.sent.push(m), ..self }
    }

    /// The link once its oldest message was handed to the receiver.
    pub open spec fn popped(self) -> LinkView {
        LinkView {
            queue: self.queue.drop_first(),
            received: self.received.push(self.queue[0]),
            ..self
        }
    }

    /// Whether a send would be accepted now.
    pub open spec fn has_room(self) -> bool {
        self.receiver_open && self.queue.len() < self.capacity
    }
}

/// One buffer with the liveness of its two endpoints.
pub struct Link {
    send_id: PortId,
    recv_id: PortId,
    capacity: usize,
    queue: VecDeque<Message>,
    sender_open: bool,
    receiver_open: bool,
    sent: Ghost<Seq<MessageView>>,
    received: Ghost<Seq<MessageView>>,
}

impl View for Link {
    type V = LinkView;

    closed spec fn view(&self) -> LinkView {
        LinkView {
            send_id: self.send_id@,
            recv_id: self.recv_id@,
            capacity: self.capacity as nat,
            queue: self.queue@.map_values(|m: Message| m@),
            sender_open: self.sender_open,
            receiver_open: self.receiver_open,
            sent: self.sent@,
            received: self.received@,
        }
    }
}

/// What a send did when it did not fail.
#[derive(Debug, PartialEq, Eq)]
pub enum SendStatus {
    /// The message is in the buffer.
    Sent,
    /// The buffer is at capacity: the sender would suspend. The message comes back.
    Full(Message),
}

/// All the links of one instance.
pub struct LinkTable {
    links: Vec<Link>,
}

impl View for LinkTable {
    type V = Seq<LinkView>;

    closed spec fn view(&self) -> Seq<LinkView> {
        self.links@.map_values(|l: Link| l@)
    }
}

/// Where a walk over a list of deliveries ends.
pub struct DeliverOutcome {
    /// The table after the walk.
    pub table: Seq<LinkView>,
    /// How many deliveries were made.
    pub delivered: nat,
    /// Whether the walk ended on a link that is torn down.
    pub closed: bool,
}

/// Makes the deliveries `ds` one after the other. The walk ends before the
/// first delivery whose link is full or torn down.
pub open spec fn deliver_spec(
    t: Seq<LinkView>,
    ds: Seq<(EndpointView, MessageView)>,
) -> DeliverOutcome
    decreases ds.len(),
{
    if ds.len() == 0 {
        DeliverOutcome { table: t, delivered: 0, closed: false }
    } else {
        let link = ds[0].0.link as int;
        if link >= t.len() || !t[link].receiver_open {
            DeliverOutcome { table: t, delivered: 0, closed: true }
        } else if t[link].queue.len() >= t[link].capacity {
            DeliverOutcome { table: t, delivered: 0, closed: false }
        } else {
            let rest = deliver_spec(t.update(link, t[link].pushed(ds[0].1)), ds.drop_first());
            DeliverOutcome { delivered: rest.delivered + 1, ..rest }
        }
    }
}

/// The messages that `ds` addresses to link number `link`, in order.
pub open spec fn addressed(ds: Seq<(EndpointView, MessageView)>, link: int) -> Seq<MessageView> {
    ds.filter(|d: (EndpointView, MessageView)| d.0.link == link).map_values(
        |d: (EndpointView, MessageView)| d.1,
    )
}

/// Link FIFO: what a link has handed to its receiver is, message for
/// message and in the same order, the beginning of what it accepted from its
/// sender; once the buffer is drained the two sequences are equal. The next
/// message to leave is the oldest that was sent and not yet received, and
/// both accepting and handing over a message keep the link in order.
pub proof fn lemma_link_fifo(l: LinkView)
    requires
        l.wf(),
    ensures
        l.received.is_prefix_of(l.sent),
        l.queue.len() == 0 ==> l.received == l.sent,
        l.queue.len() > 0 ==> l.queue[0] == l.sent[l.received.len() as int] && l.popped().wf(),
        forall|m: MessageView| l.queue.len() < l.capacity ==> (#[trigger] l.pushed(m)).wf(),
{
    if l.queue.len() > 0 {
        assert(l.popped().sent =~= l.popped().received + l.popped().queue);
    }
}

/// A walk over deliveries extends the history of every link by the messages
/// addressed to it among the deliveries made, in their order, and by
/// nothing else. It leaves the number of links as it is.
pub proof fn lemma_deliver_appends(
    t: Seq<LinkView>,
    ds: Seq<(EndpointView, MessageView)>,
    link: int,
)
    requires
        0 <= link < t.len(),
    ensures
        deliver_spec(t, ds).table.len() == t.len(),
        deliver_spec(t, ds).delivered <= ds.len(),
        deliver_spec(t, ds).table[link].sent == t[link].sent + addressed(
            ds.subrange(0, deliver_spec(t, ds).delivered as int),
            link,
        ),
        deliver_spec(t, ds).table[link].queue == t[link].queue + addressed(
            ds.subrange(0, deliver_spec(t, ds).delivered as int),
            link,
        ),
        deliver_spec(t, ds).table[link].received == t[link].received,
    decreases ds.len(),
{
    let out = deliver_spec(t, ds);
    let pred = |d: (EndpointView, MessageView)| d.0.link == link;
    if out.delivered > 0 {
        let k = ds[0].0.link as int;
        let m = ds[0].1;
        let t1 = t.update(k, t[k].pushed(m));
        let rest = deliver_spec(t1, ds.drop_first());
        lemma_deliver_appends(t1, ds.drop_first(), link);
        let head = seq![ds[0]];
        let tail = ds.drop_first().subrange(0, rest.delivered as int);
        assert(ds.subrange(0, out.delivered as int) =~= head + tail);
        assert(head.filter(pred) =~= if k == link {
            head
        } else {
            Seq::empty()
        }) by {
            reveal_with_fuel(Seq::filter, 2);
        }
    }
}

/// Every link of the table is well formed.
pub open spec fn table_wf(t: Seq<LinkView>) -> bool {
    forall|i: int| 0 <= i < t.len() ==> (#[trigger] t[i]).wf()
}

impl LinkTable {
    pub open spec fn wf(&self) -> bool {
        table_wf(self@)
    }

    /// A table without links.
    pub fn new() -> (t: Self)
        ensures
            t@ == Seq::<LinkView>::empty(),
            t.wf(),
    {
        LinkTable { links: Vec::new() }
    }

    /// Number of links ever created in this table.
    pub fn len(&self) -> (n: usize)
        ensures
            n == self@.len(),
    {
        self.links.len()
    }

    /// Pushes `msg` into the link of `sender`.
    ///
    /// Fails with `LinkClosed` exactly when the table has no such link or its
    /// receiver was destroyed. Otherwise the message is appended to the buffer
    /// if there is room, and handed back in `Full` if there is none.
    pub fn send(&mut self, sender: &LinkSender, msg: Message) -> (r: ZFResult<SendStatus>)
        requires
            old(self).wf(),
        ensures
            final(self).wf(),
            match r {
                Ok(SendStatus::Sent) => {
                    &&& sender@.link < old(self)@.len()
                    &&& old(self)@[sender@.link as int].has_room()
                    &&& final(self)@ == old(self)@.update(
                        sender@.link as int,
                        old(self)@[sender@.link as int].pushed(msg@),
                    )
                },
                Ok(SendStatus::Full(m)) => {
                    &&& sender@.link < old(self)@.len()
                    &&& old(self)@[sender@.link as int].receiver_open
                    &&& old(self)@[sender@.link as int].queue.len() >= old(
                        self,
                    )@[sender@.link as int].capacity
                    &&& m@ == msg@
                    &&& final(self)@ == old(self)@
                },
                Err(e) => {
                    &&& e@ == ZFErrorView::LinkClosed
                    &&& (sender@.link >= old(self)@.len() || !old(
                        self,
                    )@[sender@.link as int].receiver_open)
                    &&& final(self)@ == old(self)@
                },
            },
    {
        let i = sender.link;
        if i >= self.links.len() {
            return Err(ZFError::LinkClosed);
        }
        if !self.links[i].receiver_open {
            return Err(ZFError::LinkClosed);
        }
        if self.links[i].queue.len() >= self.links[i].capacity {
            return Ok(SendStatus::Full(msg));
        }
        let ghost before = self@;
        let ghost m = msg@;
        let link = &mut self.links[i];
        link.queue.push_back(msg);
        link.sent = Ghost(link.sent@.push(m));
        proof {
            assert(self@[i as int].queue =~= before[i as int].queue.push(m));
            assert(self@ =~= before.update(i as int, before[i as int].pushed(m)));
        }
        Ok(SendStatus::Sent)
    }

    /// Pulls the oldest message of the link of `receiver`, with the id of the
    /// port that the receiver feeds.
    ///
    /// `Ok(None)` means that nothing is buffered while the sender is alive: the
    /// receiver would suspend. Fails with `LinkClosed` exactly when the table
    /// has no such link, the receiver was destroyed, or nothing is buffered
    /// and the sender was destroyed.
    pub fn recv(&mut self, receiver: &LinkReceiver) -> (r: ZFResult<Option<(PortId, Message)>>)
        requires
            old(self).wf(),
        ensures
            final(self).wf(),
            match r {
                Ok(Some((id, m))) => {
                    &&& receiver@.link < old(self)@.len()
                    &&& old(self)@[receiver@.link as int].receiver_open
                    &&& old(self)@[receiver@.link as int].queue.len() > 0
                    &&& id@ == receiver@.id
                    &&& m@ == old(self)@[receiver@.link as int].queue[0]
                    &&& final(self)@ == old(self)@.update(
                        receiver@.link as int,
                        old(self)@[receiver@.link as int].popped(),
                    )
                },
                Ok(None) => {
                    &&& receiver@.link < old(self)@.len()
                    &&& old(self)@[receiver@.link as int].receiver_open
                    &&& old(self)@[receiver@.link as int].sender_open
                    &&& old(self)@[receiver@.link as int].queue.len() == 0
                    &&& final(self)@ == old(self)@
                },
                Err(e) => {
                    &&& e@ == ZFErrorView::LinkClosed
                    &&& final(self)@ == old(self)@
                    &&& (receiver@.link >= old(self)@.len() || !old(
                        self,
                    )@[receiver@.link as int].receiver_open || (!old(
                        self,
                    )@[receiver@.link as int].sender_open && old(
                        self,
                    )@[receiver@.link as int].queue.len() == 0))
                },
            },
    {
        let i = receiver.link;
        if i >= self.links.len() {
            return Err(ZFError::LinkClosed);
        }
        if !self.links[i].receiver_open {
            return Err(ZFError::LinkClosed);
        }
        let ghost before = self@;
        let sender_open = self.links[i].sender_open;
        let link = &mut self.links[i];
        match link.queue.pop_front() {
            Some(msg) => {
                link.received = Ghost(link.received@.push(msg@));
                proof {
                    assert(self@[i as int].queue =~= before[i as int].queue.drop_first());
                    assert(self@ =~= before.update(i as int, before[i as int].popped()));
                    assert(self@[i as int].sent =~= self@[i as int].received
                        + self@[i as int].queue);
                }
                Ok(Some((receiver.id.clone(), msg)))
            },
            None => {
                proof {
                    assert(self@ =~= before);
                }
                if sender_open {
                    Ok(None)
                } else {
                    Err(ZFError::LinkClosed)
                }
            },
        }
    }

    /// Makes the deliveries from position `from` on, one after the other, each
    /// with a copy of its message. Returns the position of the first delivery
    /// that was not made: the length of the list when all are made, else that
    /// of a delivery whose link is full, where the sender would suspend.
    /// Fails with `LinkClosed` when the walk comes to a link that is torn down.
    pub fn deliver(&mut self, deliveries: &Vec<Delivery>, from: usize) -> (r: ZFResult<usize>)
        requires
            old(self).wf(),
        ensures
            final(self).wf(),
            ({
                let all = deliveries_view(deliveries@);
                let todo = if from <= all.len() {
                    all.subrange(from as int, all.len() as int)
                } else {
                    Seq::empty()
                };
                let out = deliver_spec(old(self)@, todo);
                &&& final(self)@ == out.table
                &&& match r {
                    Ok(next) => !out.closed && next == from + out.delivered,
                    Err(e) => out.closed && e@ == ZFErrorView::LinkClosed,
                }
            }),
    {
        let n = deliveries.len();
        if from > n {
            return Ok(from);
        }
        let ghost all = deliveries_view(deliveries@);
        let ghost start = self@;
        let mut i: usize = from;
        while i < n
            invariant
                self.wf(),
                n == deliveries.len(),
                all == deliveries_view(deliveries@),
                start == old(self)@,
                from <= i <= n,
                ({
                    let whole = deliver_spec(start, all.subrange(from as int, n as int));
                    let left = deliver_spec(self@, all.subrange(i as int, n as int));
                    &&& whole.table == left.table
                    &&& whole.closed == left.closed
                    &&& whole.delivered == left.delivered + (i - from)
                }),
            decreases n - i,
        {
            let ghost cur = all.subrange(i as int, n as int);
            proof {
                assert(cur.drop_first() =~= all.subrange(i as int + 1, n as int));
            }
            let d = &deliveries[i];
            match self.send(&d.sender, d.message.clone()) {
                Ok(SendStatus::Sent) => {},
                Ok(SendStatus::Full(_)) => {
                    return Ok(i);
                },
                Err(e) => {
                    return Err(e);
                },
            }
            i += 1;
        }
        Ok(n)
    }

    /// Destroys a sender: once the buffer is drained, receives on its link fail.
    pub fn close_sender(&mut self, sender: LinkSender)
        requires
            old(self).wf(),
        ensures
            final(self).wf(),
            sender@.link < old(self)@.len() ==> final(self)@ == old(self)@.update(
                sender@.link as int,
                (LinkView { sender_open: false, ..old(self)@[sender@.link as int] }),
            ),
            sender@.link >= old(self)@.len() ==> final(self)@ == old(self)@,
    {
        let i = sender.link;
        if i < self.links.len() {
            let ghost before = self@;
            self.links[i].sender_open = false;
            proof {
                assert(self@ =~= before.update(
                    i as int,
                    (LinkView { sender_open: false, ..before[i as int] }),
                ));
            }
        }
    }

    /// Destroys a receiver: sends on its link fail from now on.
    pub fn close_receiver(&mut self, receiver: LinkReceiver)
        requires
            old(self).wf(),
        ensures
            final(self).wf(),
            receiver@.link < old(self)@.len() ==> final(self)@ == old(self)@.update(
                receiver@.link as int,
                (LinkView { receiver_open: false, ..old(self)@[receiver@.link as int] }),
            ),
            receiver@.link >= old(self)@.len() ==> final(self)@ == old(self)@,
    {
        let i = receiver.link;
        if i < self.links.len() {
            let ghost before = self@;
            self.links[i].receiver_open = false;
            proof {
                assert(self@ =~= before.update(
                    i as int,
                    (LinkView { receiver_open: false, ..before[i as int] }),
                ));
            }
        }
    }
}

/// Creates a link of the given capacity (the default one if `None`) in
/// `table` and returns its two endpoints, named after the ports they serve.
pub fn link(table: &mut LinkTable, capacity: Option<usize>, send_id: PortId, recv_id: PortId) -> (r:
    (LinkSender, LinkReceiver))
    requires
        old(table).wf(),
    ensures
        final(table).wf(),
        final(table)@ == old(table)@.push(
            LinkView::fresh(
                send_id@,
                recv_id@,
                match capacity {
                    Some(c) => c as nat,
                    None => DEFAULT_LINK_CAPACITY as nat,
                },
            ),
        ),
        r.0@ == (EndpointView { id: send_id@, link: old(table)@.len() }),
        r.1@ == (EndpointView { id: recv_id@, link: old(table)@.len() }),
{
    let cap = match capacity {
        Some(c) => c,
        None => DEFAULT_LINK_CAPACITY,
    };
    let index = table.links.len();
    let sender = LinkSender { id: send_id.clone(), link: index };
    let receiver = LinkReceiver { id: recv_id.clone(), link: index };
    let ghost before = table@;
    let fresh = Link {
        send_id,
        recv_id,
        capacity: cap,
        queue: VecDeque::new(),
        sender_open: true,
        receiver_open: true,
        sent: Ghost(Seq::empty()),
        received: Ghost(Seq::empty()),
    };
    table.links.push(fresh);
    proof {
        assert(table@ =~= before.push(fresh@));
    }
    (sender, receiver)
}

} // verus!
