//! The recorder: an extra consumer on a source's output that publishes what
//! it receives to a key of the pub/sub transport while recording is on, and
//! discards it while recording is off.

use vstd::prelude::*;
use vstd::string::*;
use crate::link::{EndpointView, LinkReceiver};
use crate::message::{Message, MessageView};
use crate::signal::StopSignal;
use crate::types::{InstanceContext, InstanceContextView, NodeId, PortId, ZFResult};

verus! {

/// The key under which the output `port` of `node` is recorded:
/// `/zf/record/{flow}/{instance}/{node}/{port}`.
pub open spec fn resource_name_of(
    flow: Seq<char>,
    instance: Seq<char>,
    node: Seq<char>,
    port: Seq<char>,
) -> Seq<char> {
    "/zf/record/"@ + flow + "/"@ + instance + "/"@ + node + "/"@ + port
}

/// The id of the recorder of the output `port` of `node`:
/// `logger-{flow}-{instance}-{node}-{port}`.
pub open spec fn logger_id_of(
    flow: Seq<char>,
    instance: Seq<char>,
    node: Seq<char>,
    port: Seq<char>,
) -> Seq<char> {
    "logger-"@ + flow + "-"@ + instance + "-"@ + node + "-"@ + port
}

/// Builds the key under which an output port is recorded.
pub fn resource_name(ctx: &InstanceContext, node_id: &NodeId, port_id: &PortId) -> (r: String)
    ensures
        r@ == resource_name_of(ctx@.flow_id, ctx@.instance_id, node_id@, port_id@),
{
    let mut s = String::from_str("/zf/record/");
    s.append(ctx.flow_id.as_str());
    s.append("/");
    s.append(ctx.instance_id.as_str());
    s.append("/");
    s.append(node_id.as_str());
    s.append("/");
    s.append(port_id.as_str());
    s
}

/// Builds the id of the recorder of an output port.
pub fn logger_id(ctx: &InstanceContext, node_id: &NodeId, port_id: &PortId) -> (r: NodeId)
    ensures
        r@ == logger_id_of(ctx@.flow_id, ctx@.instance_id, node_id@, port_id@),
{
    let mut s = String::from_str("logger-");
    s.append(ctx.flow_id.as_str());
    s.append("-");
    s.append(ctx.instance_id.as_str());
    s.append("-");
    s.append(node_id.as_str());
    s.append("-");
    s.append(port_id.as_str());
    s
}

/// What the recorder does with one message.
#[derive(Debug, PartialEq, Eq)]
pub enum LoggerAction {
    /// Serialize the message and publish it under `key`.
    Publish { key: String, message: Message },
    /// Drop the message.
    Discard,
}

/// Mathematical value of a [`LoggerAction`].
pub enum LoggerActionView {
    Publish { key: Seq<char>, message: MessageView },
    Discard,
}

impl View for LoggerAction {
    type V = LoggerActionView;

    open spec fn view(&self) -> LoggerActionView {
        match self {
            LoggerAction::Publish { key, message } => LoggerActionView::Publish {
                key: key@,
                message: message@,
            },
            LoggerAction::Discard => LoggerActionView::Discard,
        }
    }
}

/// Mathematical value of a recorder.
pub struct LoggerView {
    pub id: Seq<char>,
    pub ctx: InstanceContextView,
    pub resource_name: Seq<char>,
    pub node_id: Seq<char>,
    pub port_id: Seq<char>,
    pub input: EndpointView,
    pub recording: bool,
}

impl LoggerView {
    /// What becomes of a message that the recorder pulls from its link.
    pub open spec fn action(self, m: MessageView) -> LoggerActionView {
        if self.recording {
            LoggerActionView::Publish { key: self.resource_name, message: m }
        } else {
            LoggerActionView::Discard
        }
    }
}

/// The recorder of one output port of a source.
pub struct ZenohLogger {
    id: NodeId,
    ctx: InstanceContext,
    resource_name: String,
    node_id: NodeId,
    port_id: PortId,
    input: LinkReceiver,
    recording: bool,
}

impl View for ZenohLogger {
    type V = LoggerView;

    closed spec fn view(&self) -> LoggerView {
        LoggerView {
            id: self.id@,
            ctx: self.ctx@,
            resource_name: self.resource_name@,
            node_id: self.node_id@,
            port_id: self.port_id@,
            input: self.input@,
            recording: self.recording,
        }
    }
}

impl ZenohLogger {
    /// A recorder that is idle. It owns the receiving end of the tap.
    pub fn try_new(
        id: NodeId,
        ctx: InstanceContext,
        resource_name: String,
        node_id: NodeId,
        port_id: PortId,
        input: LinkReceiver,
    ) -> (r: ZFResult<Self>)
        ensures
            r matches Ok(logger) && logger@ == (LoggerView {
                id: id@,
                ctx: ctx@,
                resource_name: resource_name@,
                node_id: node_id@,
                port_id: port_id@,
                input: input@,
                recording: false,
            }),
    {
        Ok(ZenohLogger { id, ctx, resource_name, node_id, port_id, input, recording: false })
    }

    /// Starts the recorder and returns the signal that stops it, not yet triggered.
    pub fn start(&self) -> (r: StopSignal)
        ensures
            !r@,
    {
        StopSignal::new()
    }

    /// The recorder's own id.
    pub fn get_id(&self) -> (r: NodeId)
        ensures
            r@ == self@.id,
    {
        self.id.clone()
    }

    /// The receiving end of the tap, from which the recorder pulls.
    pub fn get_input(&self) -> (r: &LinkReceiver)
        ensures
            r@ == self@.input,
    {
        &self.input
    }

    /// Whether messages are being published.
    pub fn is_recording(&self) -> (r: bool)
        ensures
            r == self@.recording,
    {
        self.recording
    }

    /// Turns recording on and returns the key under which messages are published.
    pub fn start_recording(&mut self) -> (r: ZFResult<String>)
        ensures
            r matches Ok(key) && key@ == old(self)@.resource_name,
            final(self)@ == (LoggerView { recording: true, ..old(self)@ }),
    {
        self.recording = true;
        Ok(self.resource_name.clone())
    }

    /// Turns recording off and returns the key under which messages were published.
    pub fn stop_recording(&mut self) -> (r: ZFResult<String>)
        ensures
            r matches Ok(key) && key@ == old(self)@.resource_name,
            final(self)@ == (LoggerView { recording: false, ..old(self)@ }),
    {
        self.recording = false;
        Ok(self.resource_name.clone())
    }

    /// Decides what becomes of a message pulled from the tap: published under
    /// the recorder's key while recording, discarded otherwise.
    pub fn on_message(&self, message: Message) -> (r: LoggerAction)
        ensures
            r@ == self@.action(message@),
    {
        if self.recording {
            LoggerAction::Publish { key: self.resource_name.clone(), message }
        } else {
            LoggerAction::Discard
        }
    }
}

} // verus!
