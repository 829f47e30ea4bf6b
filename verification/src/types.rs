//! Identifiers, the error taxonomy and the per-instance context.

use vstd::prelude::*;

verus! {

/// Identifier of a node of the graph.
pub type NodeId = String;

/// Identifier of a port, unique within one side of a node.
pub type PortId = String;

/// Schema tag of a port; compared, never interpreted.
pub type PortType = String;

pub type ZFResult<T> = Result<T, ZFError>;

#[derive(Debug, PartialEq, Eq)]
pub enum ZFError {
    /// A URI or descriptor could not be parsed; carries the parser's message.
    ParsingError(String),
    /// The feature is not supported (for instance a URI scheme other than `file`).
    Unimplemented,
    /// The version tags of a plugin disagree with those of the runtime.
    VersionMismatch,
    /// A state was expected and is absent.
    MissingState,
    /// A node id that the graph does not know.
    NodeNotFound(NodeId),
    /// A failure of the file system or of the transport.
    IOError(String),
    /// A send or a receive on a link that was torn down.
    LinkClosed,
}

/// Mathematical value of a [`ZFError`].
pub enum ZFErrorView {
    ParsingError(Seq<char>),
    Unimplemented,
    VersionMismatch,
    MissingState,
    NodeNotFound(Seq<char>),
    IOError(Seq<char>),
    LinkClosed,
}

impl View for ZFError {
    type V = ZFErrorView;

    open spec fn view(&self) -> ZFErrorView {
        match self {
            ZFError::ParsingError(m) => ZFErrorView::ParsingError(m@),
            ZFError::Unimplemented => ZFErrorView::Unimplemented,
            ZFError::VersionMismatch => ZFErrorView::VersionMismatch,
            ZFError::MissingState => ZFErrorView::MissingState,
            ZFError::NodeNotFound(n) => ZFErrorView::NodeNotFound(n@),
            ZFError::IOError(m) => ZFErrorView::IOError(m@),
            ZFError::LinkClosed => ZFErrorView::LinkClosed,
        }
    }
}

impl Clone for ZFError {
    fn clone(&self) -> (r: Self)
        ensures
            r@ == self@,
    {
        match self {
            ZFError::ParsingError(m) => ZFError::ParsingError(m.clone()),
            ZFError::Unimplemented => ZFError::Unimplemented,
            ZFError::VersionMismatch => ZFError::VersionMismatch,
            ZFError::MissingState => ZFError::MissingState,
            ZFError::NodeNotFound(n) => ZFError::NodeNotFound(n.clone()),
            ZFError::IOError(m) => ZFError::IOError(m.clone()),
            ZFError::LinkClosed => ZFError::LinkClosed,
        }
    }
}

/// What every runner of one instance of a flow knows about that instance.
#[derive(Debug, PartialEq, Eq)]
pub struct InstanceContext {
    pub flow_id: String,
    pub instance_id: String,
    pub runtime_id: String,
}

/// Mathematical value of an [`InstanceContext`].
pub struct InstanceContextView {
    pub flow_id: Seq<char>,
    pub instance_id: Seq<char>,
    pub runtime_id: Seq<char>,
}

impl View for InstanceContext {
    type V = InstanceContextView;

    open spec fn view(&self) -> InstanceContextView {
        InstanceContextView {
            flow_id: self.flow_id@,
            instance_id: self.instance_id@,
            runtime_id: self.runtime_id@,
        }
    }
}

impl Clone for InstanceContext {
    fn clone(&self) -> (r: Self)
        ensures
            r@ == self@,
    {
        InstanceContext {
            flow_id: self.flow_id.clone(),
            instance_id: self.instance_id.clone(),
            runtime_id: self.runtime_id.clone(),
        }
    }
}

} // verus!
