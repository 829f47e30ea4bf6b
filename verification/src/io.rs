//! The link tables of one node: at most one receiver per input port, and an
//! ordered sequence of senders per output port.

use vstd::prelude::*;
use crate::link::{
    addressed, deliver_spec, deliveries_view, Delivery, EndpointView, LinkReceiver, LinkSender,
    LinkView,
};
use crate::link::lemma_deliver_appends;
use crate::message::{Message, MessageView};
use crate::types::PortId;

verus! {

/// Publishing `m` on `port`: one delivery per sender of that port, in the
/// order in which the senders were attached.
pub open spec fn fanout(outputs: Seq<EndpointView>, port: Seq<char>, m: MessageView) -> Seq<
    (EndpointView, MessageView),
> {
    outputs.filter(|e: EndpointView| e.id == port).map_values(|e: EndpointView| (e, m))
}

/// The fan-out over one more sender adds a delivery if the sender is on the port.
proof fn lemma_fanout_push(
    outputs: Seq<EndpointView>,
    e: EndpointView,
    port: Seq<char>,
    m: MessageView,
)
    ensures
        fanout(outputs.push(e), port, m) == if e.id == port {
            fanout(outputs, port, m).push((e, m))
        } else {
            fanout(outputs, port, m)
        },
        fanout(Seq::empty(), port, m) == Seq::<(EndpointView, MessageView)>::empty(),
{
    reveal_with_fuel(Seq::filter, 2);
    assert(outputs.push(e).drop_last() =~= outputs);
}

/// One copy of `m` for each sender of `port` that is attached to link
/// number `link`.
pub open spec fn copies_for(
    outputs: Seq<EndpointView>,
    port: Seq<char>,
    m: MessageView,
    link: int,
) -> Seq<MessageView> {
    outputs.filter(|e: EndpointView| e.id == port && e.link == link).map_values(
        |e: EndpointView| m,
    )
}

/// One more sender adds a copy if it is on the port and attached to the link.
proof fn lemma_copies_for_push(
    outputs: Seq<EndpointView>,
    e: EndpointView,
    port: Seq<char>,
    m: MessageView,
    link: int,
)
    ensures
        copies_for(outputs.push(e), port, m, link) == if e.id == port && e.link == link {
            copies_for(outputs, port, m, link).push(m)
        } else {
            copies_for(outputs, port, m, link)
        },
        copies_for(Seq::empty(), port, m, link) == Seq::<MessageView>::empty(),
{
    reveal_with_fuel(Seq::filter, 2);
    assert(outputs.push(e).drop_last() =~= outputs);
}

/// One more delivery adds its message if it is addressed to the link.
proof fn lemma_addressed_push(
    ds: Seq<(EndpointView, MessageView)>,
    d: (EndpointView, MessageView),
    link: int,
)
    ensures
        addressed(ds.push(d), link) == if d.0.link == link {
            addressed(ds, link).push(d.1)
        } else {
            addressed(ds, link)
        },
        addressed(Seq::empty(), link) == Seq::<MessageView>::empty(),
{
    reveal_with_fuel(Seq::filter, 2);
    assert(ds.push(d).drop_last() =~= ds);
}

/// Among the deliveries of one publication, those addressed to one link are
/// one copy of the message for each sender of the port that is attached to
/// that link.
proof fn lemma_addressed_fanout(
    outputs: Seq<EndpointView>,
    port: Seq<char>,
    m: MessageView,
    link: int,
)
    ensures
        addressed(fanout(outputs, port, m), link) == copies_for(outputs, port, m, link),
    decreases outputs.len(),
{
    if outputs.len() > 0 {
        let front = outputs.drop_last();
        let e = outputs.last();
        assert(front.push(e) =~= outputs);
        lemma_fanout_push(front, e, port, m);
        lemma_copies_for_push(front, e, port, m, link);
        lemma_addressed_push(fanout(front, port, m), (e, m), link);
        lemma_addressed_fanout(front, port, m, link);
    }
}

/// Fan-out fidelity: when a publication of `m` on `port` is delivered in
/// full, the history of every link grows by one copy of `m` for each sender
/// of the port attached to it, and by nothing else. So every receiver wired
/// to the port by one link sees the messages published on it, each once, in
/// the order of publication.
pub proof fn lemma_fanout_fidelity(
    t: Seq<LinkView>,
    outputs: Seq<EndpointView>,
    port: Seq<char>,
    m: MessageView,
    link: int,
)
    requires
        0 <= link < t.len(),
        deliver_spec(t, fanout(outputs, port, m)).delivered == fanout(outputs, port, m).len(),
    ensures
        deliver_spec(t, fanout(outputs, port, m)).table[link].sent == t[link].sent + copies_for(
            outputs,
            port,
            m,
            link,
        ),
        copies_for(outputs, port, m, link).len() == 1 ==> deliver_spec(
            t,
            fanout(outputs, port, m),
        ).table[link].sent == t[link].sent.push(m),
{
    let ds = fanout(outputs, port, m);
    lemma_deliver_appends(t, ds, link);
    lemma_addressed_fanout(outputs, port, m, link);
    assert(ds.subrange(0, ds.len() as int) =~= ds);
}

/// No two receivers feed the same port.
pub open spec fn distinct_endpoints(links: Seq<EndpointView>) -> bool {
    forall|i: int, j: int|
        0 <= i < j < links.len() ==> (#[trigger] links[i]).id != (#[trigger] links[j]).id
}

/// Some endpoint of `links` is on `port`.
pub open spec fn has_endpoint(links: Seq<EndpointView>, port: Seq<char>) -> bool {
    exists|i: int| 0 <= i < links.len() && (#[trigger] links[i]).id == port
}

/// Position of the endpoint on `port`, when there is one.
pub open spec fn endpoint_of(links: Seq<EndpointView>, port: Seq<char>) -> int {
    choose|i: int| 0 <= i < links.len() && (#[trigger] links[i]).id == port
}

/// The receivers once `e` is attached: it takes the place of the receiver of
/// the same port, or comes last.
pub open spec fn put_endpoint(links: Seq<EndpointView>, e: EndpointView) -> Seq<EndpointView> {
    if has_endpoint(links, e.id) {
        links.update(endpoint_of(links, e.id), e)
    } else {
        links.push(e)
    }
}

/// Mathematical value of a node's link tables.
pub struct IoView {
    pub inputs: Seq<EndpointView>,
    pub outputs: Seq<EndpointView>,
}

/// The link tables of one node.
pub struct NodeIo {
    inputs: Vec<LinkReceiver>,
    outputs: Vec<LinkSender>,
}

impl View for NodeIo {
    type V = IoView;

    closed spec fn view(&self) -> IoView {
        IoView {
            inputs: self.inputs@.map_values(|r: LinkReceiver| r@),
            outputs: self.outputs@.map_values(|s: LinkSender| s@),
        }
    }
}

impl NodeIo {
    pub open spec fn wf(&self) -> bool {
        distinct_endpoints(self@.inputs)
    }

    /// Tables without links.
    pub fn new() -> (r: Self)
        ensures
            r.wf(),
            r@.inputs == Seq::<EndpointView>::empty(),
            r@.outputs == Seq::<EndpointView>::empty(),
    {
        NodeIo { inputs: Vec::new(), outputs: Vec::new() }
    }

    /// Attaches a receiver to the input port it names. A port has one
    /// receiver: a second one for the same port replaces the first.
    pub fn add_input(&mut self, input: LinkReceiver)
        requires
            old(self).wf(),
        ensures
            final(self).wf(),
            final(self)@.inputs == put_endpoint(old(self)@.inputs, input@),
            final(self)@.outputs == old(self)@.outputs,
    {
        let ghost before = self@.inputs;
        let ghost outputs = self@.outputs;
        let n = self.inputs.len();
        let port = input.id();
        let mut i: usize = 0;
        while i < n
            invariant
                n == self.inputs.len(),
                i <= n,
                self@.inputs == before,
                self@.outputs == outputs,
                before == old(self)@.inputs,
                outputs == old(self)@.outputs,
                distinct_endpoints(before),
                port@ == input@.id,
                forall|k: int| 0 <= k < i ==> (#[trigger] before[k]).id != port@,
            decreases n - i,
        {
            if self.inputs[i].id() == port {
                proof {
                    // Slot `i` is the only endpoint on this port.
                    assert(before[i as int].id == port@);
                    assert(endpoint_of(before, port@) == i);
                }
                self.inputs.set(i, input);
                proof {
                    assert(self@.inputs =~= before.update(i as int, input@));
                }
                return ;
            }
            i += 1;
        }
        self.inputs.push(input);
        proof {
            assert(self@.inputs =~= before.push(input@));
        }
    }

    /// Attaches a sender after those already on its output port.
    pub fn add_output(&mut self, output: LinkSender)
        ensures
            final(self)@.outputs == old(self)@.outputs.push(output@),
            final(self)@.inputs == old(self)@.inputs,
    {
        self.outputs.push(output);
    }

    /// The receivers, one per wired input port.
    pub fn input_links(&self) -> (r: Vec<LinkReceiver>)
        ensures
            r@.map_values(|x: LinkReceiver| x@) == self@.inputs,
    {
        let mut out: Vec<LinkReceiver> = Vec::new();
        let n = self.inputs.len();
        let mut i: usize = 0;
        while i < n
            invariant
                n == self.inputs.len(),
                i <= n,
                out@.map_values(|x: LinkReceiver| x@) == self@.inputs.subrange(0, i as int),
            decreases n - i,
        {
            let ghost prev = out@;
            let c = self.inputs[i].clone();
            out.push(c);
            proof {
                assert(out@.map_values(|x: LinkReceiver| x@) =~= prev.map_values(
                    |x: LinkReceiver| x@,
                ).push(c@));
            }
            i += 1;
        }
        out
    }

    /// The senders of all output ports, in the order in which they were attached.
    pub fn output_links(&self) -> (r: Vec<LinkSender>)
        ensures
            r@.map_values(|x: LinkSender| x@) == self@.outputs,
    {
        let mut out: Vec<LinkSender> = Vec::new();
        let n = self.outputs.len();
        let mut i: usize = 0;
        while i < n
            invariant
                n == self.outputs.len(),
                i <= n,
                out@.map_values(|x: LinkSender| x@) == self@.outputs.subrange(0, i as int),
            decreases n - i,
        {
            let ghost prev = out@;
            let c = self.outputs[i].clone();
            out.push(c);
            proof {
                assert(out@.map_values(|x: LinkSender| x@) =~= prev.map_values(
                    |x: LinkSender| x@,
                ).push(c@));
            }
            i += 1;
        }
        out
    }

    /// Appends to `out` what publishing `msg` on `port` sends: a copy of the
    /// message for every sender of the port, in order.
    pub fn publish(&self, port: &PortId, msg: &Message, out: &mut Vec<Delivery>)
        ensures
            deliveries_view(final(out)@) == deliveries_view(old(out)@) + fanout(
                self@.outputs,
                port@,
                msg@,
            ),
    {
        let ghost start = deliveries_view(out@);
        let n = self.outputs.len();
        let mut i: usize = 0;
        while i < n
            invariant
                n == self.outputs.len(),
                i <= n,
                deliveries_view(out@) == start + fanout(
                    self@.outputs.subrange(0, i as int),
                    port@,
                    msg@,
                ),
            decreases n - i,
        {
            let ghost prev = out@;
            proof {
                lemma_fanout_push(
                    self@.outputs.subrange(0, i as int),
                    self@.outputs[i as int],
                    port@,
                    msg@,
                );
                assert(self@.outputs.subrange(0, i as int).push(self@.outputs[i as int])
                    =~= self@.outputs.subrange(0, i as int + 1));
            }
            if self.outputs[i].id() == *port {
                let d = Delivery { sender: self.outputs[i].clone(), message: msg.clone() };
                out.push(d);
                proof {
                    assert(deliveries_view(out@) =~= deliveries_view(prev).push(
                        (self@.outputs[i as int], msg@),
                    ));
                }
            }
            i += 1;
        }
        proof {
            assert(self@.outputs.subrange(0, n as int) =~= self@.outputs);
        }
    }
}

} // verus!
