//! The messages that pass between the sensors and the dispatcher, and the
//! request as it arrives from the network.

use vstd::prelude::*;

verus! {

/// A request as the network delivers it: the method names a kind of command
/// and the sensor it is meant for, the parameters hold the value of a `set`.
#[derive(Debug, PartialEq, Eq)]
pub struct IncomingRPCRequest {
    pub method: String,
    pub params: Option<String>,
}

/// A command for one sensor. The number is the caller's own: the answer
/// carries it back unchanged.
#[derive(Debug, PartialEq, Eq)]
pub enum IncomingRequest {
    GetValue(u32),
    SetValue(u32, String),
}

/// What a sensor sends towards the network: readings by label, or the answer
/// to the command with the given number.
#[derive(Debug, PartialEq, Eq)]
pub enum OutgoingMessage {
    Telemetry(Vec<(String, String)>),
    AnswerGetValue(u32, String),
}

/// An `IncomingRPCRequest` as plain text.
pub struct IncomingRPCRequestView {
    pub method: Seq<char>,
    pub params: Option<Seq<char>>,
}

/// An `IncomingRequest` as plain text.
pub enum IncomingRequestView {
    GetValue(u32),
    SetValue(u32, Seq<char>),
}

/// An `OutgoingMessage` as plain text.
pub enum OutgoingMessageView {
    Telemetry(Seq<(Seq<char>, Seq<char>)>),
    AnswerGetValue(u32, Seq<char>),
}

impl OutgoingMessageView {
    /// Whether readings, if the message holds any, map each label to one
    /// reading.
    pub open spec fn well_formed(self) -> bool {
        match self {
            OutgoingMessageView::Telemetry(values) => distinct_labels(values),
            OutgoingMessageView::AnswerGetValue(_, _) => true,
        }
    }
}

/// A text that may be absent, as plain text.
pub open spec fn text_view(text: Option<String>) -> Option<Seq<char>> {
    match text {
        Some(t) => Some(t@),
        None => None,
    }
}

/// Readings by label, as plain text and in the order in which they stand.
pub open spec fn readings_view(values: Seq<(String, String)>) -> Seq<(Seq<char>, Seq<char>)> {
    Seq::new(values.len(), |i: int| (values[i].0@, values[i].1@))
}

/// Whether no label stands twice in `values`, so that they map each label to
/// one reading.
pub open spec fn distinct_labels(values: Seq<(Seq<char>, Seq<char>)>) -> bool {
    forall|i: int, j: int| 0 <= i < j < values.len() ==> values[i].0 != values[j].0
}

/// Messages as plain text, in the order in which they stand.
pub open spec fn messages_view(messages: Seq<OutgoingMessage>) -> Seq<OutgoingMessageView> {
    Seq::new(messages.len(), |i: int| messages[i]@)
}

impl View for IncomingRPCRequest {
    type V = IncomingRPCRequestView;

    open spec fn view(&self) -> IncomingRPCRequestView {
        IncomingRPCRequestView { method: self.method@, params: text_view(self.params) }
    }
}

impl View for IncomingRequest {
    type V = IncomingRequestView;

    open spec fn view(&self) -> IncomingRequestView {
        match self {
            IncomingRequest::GetValue(number) => IncomingRequestView::GetValue(*number),
            IncomingRequest::SetValue(number, text) => IncomingRequestView::SetValue(
                *number,
                text@,
            ),
        }
    }
}

impl View for OutgoingMessage {
    type V = OutgoingMessageView;

    open spec fn view(&self) -> OutgoingMessageView {
        match self {
            OutgoingMessage::Telemetry(values) => OutgoingMessageView::Telemetry(
                readings_view(values@),
            ),
            OutgoingMessage::AnswerGetValue(number, text) => OutgoingMessageView::AnswerGetValue(
                *number,
                text@,
            ),
        }
    }
}

} // verus!
