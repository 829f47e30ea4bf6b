//! The runner of a sink: it gathers inputs under its input rule and has no
//! outputs.

use vstd::prelude::*;
use crate::engine::InputRuleEngine;
use crate::io::NodeIo;
use crate::link::{EndpointView, LinkReceiver, LinkSender};
use crate::model::{clone_ports, ports_view, unique_port_ids, PortView, ZFPortDescriptor};
use crate::runners::{Runner, RunnerKind, RunnerView};
use crate::token::TokenView;
use crate::types::{NodeId, ZFError, ZFResult};

verus! {

pub struct SinkRunner {
    id: NodeId,
    inputs: Vec<ZFPortDescriptor>,
    io: NodeIo,
}

impl SinkRunner {
    /// A sink that is not wired yet.
    pub fn new(id: NodeId, inputs: Vec<ZFPortDescriptor>) -> (r: Self)
        requires
            unique_port_ids(ports_view(inputs@)),
        ensures
            r.wf(),
            r.runner_view() == (RunnerView {
                kind: RunnerKind::Sink,
                id: id@,
                inputs: ports_view(inputs@),
                outputs: Seq::empty(),
                input_links: Seq::empty(),
                output_links: Seq::empty(),
            }),
    {
        SinkRunner { id, inputs, io: NodeIo::new() }
    }

    /// The engine that gathers this sink's inputs, at the start of a round.
    pub fn engine(&self) -> (r: InputRuleEngine)
        requires
            self.wf(),
        ensures
            r.wf(),
            r@.tokens.len() == self.runner_view().inputs.len(),
            forall|i: int|
                0 <= i < r@.tokens.len() ==> #[trigger] r@.tokens[i] == (TokenView {
                    port: self.runner_view().inputs[i].port_id,
                    token: None,
                }),
            r@.closed == Seq::new(r@.tokens.len(), |i: int| false),
    {
        InputRuleEngine::new(&self.inputs)
    }
}

impl Runner for SinkRunner {
    closed spec fn runner_view(&self) -> RunnerView {
        RunnerView {
            kind: RunnerKind::Sink,
            id: self.id@,
            inputs: ports_view(self.inputs@),
            outputs: Seq::empty(),
            input_links: self.io@.inputs,
            output_links: Seq::empty(),
        }
    }

    closed spec fn wf(&self) -> bool {
        &&& self.io.wf()
        &&& unique_port_ids(ports_view(self.inputs@))
    }

    fn get_kind(&self) -> (r: RunnerKind) {
        RunnerKind::Sink
    }

    fn get_id(&self) -> (r: NodeId) {
        self.id.clone()
    }

    fn get_inputs(&self) -> (r: Vec<ZFPortDescriptor>) {
        clone_ports(&self.inputs)
    }

    fn get_outputs(&self) -> (r: Vec<ZFPortDescriptor>) {
        let r: Vec<ZFPortDescriptor> = Vec::new();
        r
    }

    fn add_input(&mut self, input: LinkReceiver) -> (r: ZFResult<()>) {
        self.io.add_input(input);
        Ok(())
    }

    fn add_output(&mut self, output: LinkSender) -> (r: ZFResult<()>) {
        Err(ZFError::Unimplemented)
    }

    fn get_input_links(&self) -> (r: Vec<LinkReceiver>) {
        self.io.input_links()
    }

    fn get_outputs_links(&self) -> (r: Vec<LinkSender>) {
        let r: Vec<LinkSender> = Vec::new();
        r
    }
}

} // verus!
