//! The runner of a source: it has no inputs and publishes what its body
//! returns on its output port.

use vstd::prelude::*;
use crate::io::{fanout, NodeIo};
use crate::link::{deliveries_view, Delivery};
use crate::link::{EndpointView, LinkReceiver, LinkSender};
use crate::message::{Message, MessageView};
use crate::model::{clone_ports, ports_view, PortView, ZFPortDescriptor};
use crate::runners::{Runner, RunnerKind, RunnerView};
use crate::types::{NodeId, ZFError, ZFResult};

verus! {

/// A source has one output port. Of several declared ones, the last is the
/// one it publishes on.
pub struct SourceRunner {
    id: NodeId,
    outputs: Vec<ZFPortDescriptor>,
    io: NodeIo,
}

/// What a source sends for data produced at `timestamp`: the data message to
/// every sender of its output port, in order; nothing if it has no port.
pub open spec fn source_deliveries(v: RunnerView, payload: Seq<u8>, timestamp: u64) -> Seq<
    (EndpointView, MessageView),
> {
    if v.outputs.len() == 0 {
        Seq::empty()
    } else {
        fanout(
            v.output_links,
            v.outputs.last().port_id,
            MessageView::Data { payload, timestamp },
        )
    }
}

impl SourceRunner {
    /// A source that is not wired yet.
    pub fn new(id: NodeId, outputs: Vec<ZFPortDescriptor>) -> (r: Self)
        ensures
            r.wf(),
            r.runner_view() == (RunnerView {
                kind: RunnerKind::Source,
                id: id@,
                inputs: Seq::empty(),
                outputs: ports_view(outputs@),
                input_links: Seq::empty(),
                output_links: Seq::empty(),
            }),
    {
        SourceRunner { id, outputs, io: NodeIo::new() }
    }

    /// Turns the result of one run of the body into what is to be sent. A
    /// failed body sends nothing and its error is handed on, for the
    /// supervisor to restart it.
    pub fn publish(&self, result: ZFResult<Vec<u8>>, timestamp: u64) -> (r: ZFResult<Vec<Delivery>>)
        ensures
            match result {
                Ok(payload) => r matches Ok(d) && deliveries_view(d@) == source_deliveries(
                    self.runner_view(),
                    payload@,
                    timestamp,
                ),
                Err(e) => r matches Err(x) && x == e,
            },
    {
        let payload = match result {
            Ok(payload) => payload,
            Err(e) => {
                return Err(e);
            },
        };
        let mut out: Vec<Delivery> = Vec::new();
        let n = self.outputs.len();
        if n > 0 {
            let msg = Message::from_data(payload, timestamp);
            self.io.publish(&self.outputs[n - 1].port_id, &msg, &mut out);
        }
        Ok(out)
    }
}

impl Runner for SourceRunner {
    closed spec fn runner_view(&self) -> RunnerView {
        RunnerView {
            kind: RunnerKind::Source,
            id: self.id@,
            inputs: Seq::empty(),
            outputs: ports_view(self.outputs@),
            input_links: Seq::empty(),
            output_links: self.io@.outputs,
        }
    }

    closed spec fn wf(&self) -> bool {
        self.io.wf()
    }

    fn get_kind(&self) -> (r: RunnerKind) {
        RunnerKind::Source
    }

    fn get_id(&self) -> (r: NodeId) {
        self.id.clone()
    }

    fn get_inputs(&self) -> (r: Vec<ZFPortDescriptor>) {
        let r: Vec<ZFPortDescriptor> = Vec::new();
        r
    }

    fn get_outputs(&self) -> (r: Vec<ZFPortDescriptor>) {
        clone_ports(&self.outputs)
    }

    fn add_input(&mut self, input: LinkReceiver) -> (r: ZFResult<()>) {
        Err(ZFError::Unimplemented)
    }

    fn add_output(&mut self, output: LinkSender) -> (r: ZFResult<()>) {
        self.io.add_output(output);
        Ok(())
    }

    fn get_input_links(&self) -> (r: Vec<LinkReceiver>) {
        let r: Vec<LinkReceiver> = Vec::new();
        r
    }

    fn get_outputs_links(&self) -> (r: Vec<LinkSender>) {
        self.io.output_links()
    }
}

} // verus!
