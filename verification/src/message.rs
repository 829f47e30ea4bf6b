//! The envelope that travels on links.

use vstd::prelude::*;

verus! {

/// A payload with the logical time at which it was produced.
#[derive(Debug, PartialEq, Eq)]
pub struct DataMessage {
    pub payload: Vec<u8>,
    pub timestamp: u64,
}

/// Control kinds that the runtime itself produces and consumes.
#[derive(Debug, Clone, Copy, PartialEq, Eq, Structural)]
pub enum ControlMessage {
    Watermark { timestamp: u64 },
    RecorderStart,
    RecorderStop,
}

/// Data and control share the links and are told apart by this tag.
#[derive(Debug, PartialEq, Eq)]
pub enum Message {
    Data(DataMessage),
    Control(ControlMessage),
}

/// Mathematical value of a [`Message`].
pub enum MessageView {
    Data { payload: Seq<u8>, timestamp: u64 },
    Control(ControlMessage),
}

impl View for DataMessage {
    type V = MessageView;

    open spec fn view(&self) -> MessageView {
        MessageView::Data { payload: self.payload@, timestamp: self.timestamp }
    }
}

impl View for Message {
    type V = MessageView;

    open spec fn view(&self) -> MessageView {
        match self {
            Message::Data(d) => d@,
            Message::Control(c) => MessageView::Control(*c),
        }
    }
}

impl Clone for DataMessage {
    fn clone(&self) -> (r: Self)
        ensures
            r@ == self@,
    {
        let payload = self.payload.clone();
        DataMessage { payload, timestamp: self.timestamp }
    }
}

impl Clone for Message {
    fn clone(&self) -> (r: Self)
        ensures
            r@ == self@,
    {
        match self {
            Message::Data(d) => Message::Data(d.clone()),
            Message::Control(c) => Message::Control(*c),
        }
    }
}

impl Message {
    /// Wraps a payload and its timestamp as a data message.
    pub fn from_data(payload: Vec<u8>, timestamp: u64) -> (r: Self)
        ensures
            r@ == (MessageView::Data { payload: payload@, timestamp }),
    {
        Message::Data(DataMessage { payload, timestamp })
    }

    /// Whether this is a data message.
    pub fn is_data(&self) -> (r: bool)
        ensures
            r == (self@ is Data),
    {
        match self {
            Message::Data(_) => true,
            Message::Control(_) => false,
        }
    }
}

} // verus!
