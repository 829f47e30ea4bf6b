//! The runner of a connector: the end of a link that crosses to another
//! runtime. A sender behaves as a sink on its one input, a receiver as a
//! source on its one output.

use vstd::prelude::*;
use crate::io::{fanout, NodeIo};
use crate::link::{deliveries_view, Delivery, EndpointView, LinkReceiver, LinkSender};
use crate::message::{Message, MessageView};
use crate::model::{ports_view, PortView, ZFPortDescriptor};
use crate::runners::{Runner, RunnerKind, RunnerView};
use crate::types::{NodeId, ZFError, ZFResult};

verus! {

/// The direction of a connector.
#[derive(Clone, Copy, Debug, PartialEq, Eq, Structural)]
pub enum ConnectorKind {
    /// Takes messages from a link and sends them out of the runtime.
    Sender,
    /// Takes messages from outside the runtime and puts them on links.
    Receiver,
}

pub struct ConnectorRunner {
    id: NodeId,
    direction: ConnectorKind,
    resource: String,
    port: ZFPortDescriptor,
    io: NodeIo,
}

impl ConnectorRunner {
    /// The side on which the connector has its port.
    pub closed spec fn direction(&self) -> ConnectorKind {
        self.direction
    }

    /// The key of the transport that the connector talks to.
    pub closed spec fn resource(&self) -> Seq<char> {
        self.resource@
    }

    /// A connector that is not wired yet.
    pub fn new(
        id: NodeId,
        direction: ConnectorKind,
        resource: String,
        port: ZFPortDescriptor,
    ) -> (r: Self)
        ensures
            r.wf(),
            r.direction() == direction,
            r.resource() == resource@,
            r.runner_view() == (RunnerView {
                kind: RunnerKind::Connector,
                id: id@,
                inputs: if direction == ConnectorKind::Sender {
                    seq![port@]
                } else {
                    Seq::empty()
                },
                outputs: if direction == ConnectorKind::Receiver {
                    seq![port@]
                } else {
                    Seq::empty()
                },
                input_links: Seq::empty(),
                output_links: Seq::empty(),
            }),
    {
        ConnectorRunner { id, direction, resource, port, io: NodeIo::new() }
    }

    /// The direction of the connector.
    pub fn get_direction(&self) -> (r: ConnectorKind)
        ensures
            r == self.direction(),
    {
        self.direction
    }

    /// The key of the transport that the connector talks to.
    pub fn get_resource(&self) -> (r: String)
        ensures
            r@ == self.resource(),
    {
        self.resource.clone()
    }

    /// Turns a message that arrived from outside into what is to be sent: a
    /// receiver sends it to every sender of its port, in order; a sender
    /// connector has no output and sends nothing. A failed arrival sends
    /// nothing and its error is handed on.
    pub fn publish(&self, result: ZFResult<Message>) -> (r: ZFResult<Vec<Delivery>>)
        ensures
            match result {
                Ok(m) => r matches Ok(d) && deliveries_view(d@) == if self.direction()
                    == ConnectorKind::Receiver {
                    fanout(
                        self.runner_view().output_links,
                        self.runner_view().outputs[0].port_id,
                        m@,
                    )
                } else {
                    Seq::empty()
                },
                Err(e) => r matches Err(x) && x == e,
            },
    {
        let msg = match result {
            Ok(msg) => msg,
            Err(e) => {
                return Err(e);
            },
        };
        let mut out: Vec<Delivery> = Vec::new();
        match self.direction {
            ConnectorKind::Receiver => {
                self.io.publish(&self.port.port_id, &msg, &mut out);
            },
            ConnectorKind::Sender => {},
        }
        Ok(out)
    }
}

impl Runner for ConnectorRunner {
    closed spec fn runner_view(&self) -> RunnerView {
        RunnerView {
            kind: RunnerKind::Connector,
            id: self.id@,
            inputs: if self.direction == ConnectorKind::Sender {
                seq![self.port@]
            } else {
                Seq::empty()
            },
            outputs: if self.direction == ConnectorKind::Receiver {
                seq![self.port@]
            } else {
                Seq::empty()
            },
            input_links: self.io@.inputs,
            output_links: self.io@.outputs,
        }
    }

    closed spec fn wf(&self) -> bool {
        self.io.wf()
    }

    fn get_kind(&self) -> (r: RunnerKind) {
        RunnerKind::Connector
    }

    fn get_id(&self) -> (r: NodeId) {
        self.id.clone()
    }

    fn get_inputs(&self) -> (r: Vec<ZFPortDescriptor>) {
        let mut r: Vec<ZFPortDescriptor> = Vec::new();
        match self.direction {
            ConnectorKind::Sender => {
                r.push(self.port.clone());
            },
            ConnectorKind::Receiver => {
            },
        }
        r
    }

    fn get_outputs(&self) -> (r: Vec<ZFPortDescriptor>) {
        let mut r: Vec<ZFPortDescriptor> = Vec::new();
        match self.direction {
            ConnectorKind::Receiver => {
                r.push(self.port.clone());
            },
            ConnectorKind::Sender => {
            },
        }
        r
    }

    fn add_input(&mut self, input: LinkReceiver) -> (r: ZFResult<()>) {
        match self.direction {
            ConnectorKind::Sender => {
                self.io.add_input(input);
                Ok(())
            },
            ConnectorKind::Receiver => Err(ZFError::Unimplemented),
        }
    }

    fn add_output(&mut self, output: LinkSender) -> (r: ZFResult<()>) {
        match self.direction {
            ConnectorKind::Receiver => {
                self.io.add_output(output);
                Ok(())
            },
            ConnectorKind::Sender => Err(ZFError::Unimplemented),
        }
    }

    fn get_input_links(&self) -> (r: Vec<LinkReceiver>) {
        self.io.input_links()
    }

    fn get_outputs_links(&self) -> (r: Vec<LinkSender>) {
        self.io.output_links()
    }
}

} // verus!
