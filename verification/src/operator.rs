//! The runner of an operator: it gathers inputs under its input rule and
//! publishes each output that its body returns.

use vstd::prelude::*;
use crate::engine::InputRuleEngine;
use crate::io::{fanout, NodeIo};
use crate::link::{deliveries_view, Delivery};
use crate::link::{EndpointView, LinkReceiver, LinkSender};
use crate::message::{Message, MessageView};
use crate::model::{clone_ports, ports_view, unique_port_ids, ZFPortDescriptor};
use crate::runners::{Runner, RunnerKind, RunnerView};
use crate::token::TokenView;
use crate::types::{NodeId, PortId, ZFResult};

verus! {

pub struct OperatorRunner {
    id: NodeId,
    inputs: Vec<ZFPortDescriptor>,
    outputs: Vec<ZFPortDescriptor>,
    io: NodeIo,
}

/// The outputs of a body as mathematical values: each payload on its port,
/// stamped with the time of the firing.
pub open spec fn outputs_view(outputs: Seq<(PortId, Vec<u8>)>, timestamp: u64) -> Seq<
    (Seq<char>, MessageView),
> {
    outputs.map_values(
        |o: (PortId, Vec<u8>)| (o.0@, MessageView::Data { payload: o.1@, timestamp }),
    )
}

/// What publishing `outputs` sends: for each output in turn, its message to
/// every sender of its port, in order. An output on a port without sender
/// goes nowhere.
pub open spec fn fanout_all(
    senders: Seq<EndpointView>,
    outputs: Seq<(Seq<char>, MessageView)>,
) -> Seq<(EndpointView, MessageView)>
    decreases outputs.len(),
{
    if outputs.len() == 0 {
        Seq::empty()
    } else {
        fanout_all(senders, outputs.drop_last()) + fanout(
            senders,
            outputs.last().0,
            outputs.last().1,
        )
    }
}

impl OperatorRunner {
    /// An operator that is not wired yet.
    pub fn new(id: NodeId, inputs: Vec<ZFPortDescriptor>, outputs: Vec<ZFPortDescriptor>) -> (r:
        Self)
        requires
            unique_port_ids(ports_view(inputs@)),
        ensures
            r.wf(),
            r.runner_view() == (RunnerView {
                kind: RunnerKind::Operator,
                id: id@,
                inputs: ports_view(inputs@),
                outputs: ports_view(outputs@),
                input_links: Seq::empty(),
                output_links: Seq::empty(),
            }),
    {
        OperatorRunner { id, inputs, outputs, io: NodeIo::new() }
    }

    /// The engine that gathers this operator's inputs, at the start of a round.
    pub fn engine(&self) -> (r: InputRuleEngine)
        requires
            self.wf(),
        ensures
            r.wf(),
            r@.tokens.len() == self.runner_view().inputs.len(),
            forall|i: int|
                0 <= i < r@.tokens.len() ==> #[trigger] r@.tokens[i] == (TokenView {
                    port: self.runner_view().inputs[i].port_id,
                    token: None,
                }),
            r@.closed == Seq::new(r@.tokens.len(), |i: int| false),
    {
        InputRuleEngine::new(&self.inputs)
    }

    /// Turns the result of one run of the body into what is to be sent. A
    /// failed body sends nothing and its error is handed on, for the
    /// supervisor to restart it.
    pub fn publish(&self, result: ZFResult<Vec<(PortId, Vec<u8>)>>, timestamp: u64) -> (r: ZFResult<
        Vec<Delivery>,
    >)
        ensures
            match result {
                Ok(outputs) => r matches Ok(d) && deliveries_view(d@) == fanout_all(
                    self.runner_view().output_links,
                    outputs_view(outputs@, timestamp),
                ),
                Err(e) => r matches Err(x) && x == e,
            },
    {
        let outputs = match result {
            Ok(outputs) => outputs,
            Err(e) => {
                return Err(e);
            },
        };
        let mut out: Vec<Delivery> = Vec::new();
        let n = outputs.len();
        let ghost senders = self.runner_view().output_links;
        let ghost all = outputs_view(outputs@, timestamp);
        let mut i: usize = 0;
        while i < n
            invariant
                n == outputs.len(),
                i <= n,
                senders == self.io@.outputs,
                all == outputs_view(outputs@, timestamp),
                deliveries_view(out@) == fanout_all(senders, all.subrange(0, i as int)),
            decreases n - i,
        {
            let payload = outputs[i].1.clone();
            let msg = Message::from_data(payload, timestamp);
            self.io.publish(&outputs[i].0, &msg, &mut out);
            proof {
                let upto = all.subrange(0, i as int + 1);
                assert(upto.drop_last() =~= all.subrange(0, i as int));
            }
            i += 1;
        }
        proof {
            assert(all.subrange(0, n as int) =~= all);
        }
        Ok(out)
    }
}

impl Runner for OperatorRunner {
    closed spec fn runner_view(&self) -> RunnerView {
        RunnerView {
            kind: RunnerKind::Operator,
            id: self.id@,
            inputs: ports_view(self.inputs@),
            outputs: ports_view(self.outputs@),
            input_links: self.io@.inputs,
            output_links: self.io@.outputs,
        }
    }

    closed spec fn wf(&self) -> bool {
        &&& self.io.wf()
        &&& unique_port_ids(ports_view(self.inputs@))
    }

    fn get_kind(&self) -> (r: RunnerKind) {
        RunnerKind::Operator
    }

    fn get_id(&self) -> (r: NodeId) {
        self.id.clone()
    }

    fn get_inputs(&self) -> (r: Vec<ZFPortDescriptor>) {
        clone_ports(&self.inputs)
    }

    fn get_outputs(&self) -> (r: Vec<ZFPortDescriptor>) {
        clone_ports(&self.outputs)
    }

    fn add_input(&mut self, input: LinkReceiver) -> (r: ZFResult<()>) {
        self.io.add_input(input);
        Ok(())
    }

    fn add_output(&mut self, output: LinkSender) -> (r: ZFResult<()>) {
        self.io.add_output(output);
        Ok(())
    }

    fn get_input_links(&self) -> (r: Vec<LinkReceiver>) {
        self.io.input_links()
    }

    fn get_outputs_links(&self) -> (r: Vec<LinkSender>) {
        self.io.output_links()
    }
}

} // verus!
