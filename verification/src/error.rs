//! The failures a serial transport can report, and the text shown for each.

use vstd::prelude::*;
use vstd::string::StringExecFns;

verus! {

/// A failure of the transport. None of them is fatal: the controller keeps
/// the failure as a notice and stays in the state it was in.
#[derive(Debug, PartialEq, Eq)]
pub enum SerialError {
    /// The host could not list its serial devices.
    Enumeration { reason: String },
    /// The named port could not be opened.
    Open { port: String, reason: String },
    /// A write to the open connection failed.
    Write { reason: String },
}

/// Mathematical value of a [`SerialError`].
pub enum SerialErrorView {
    Enumeration { reason: Seq<char> },
    Open { port: Seq<char>, reason: Seq<char> },
    Write { reason: Seq<char> },
}

impl SerialErrorView {
    /// The notice shown to the user for this failure.
    pub open spec fn text(self) -> Seq<char> {
        match self {
            SerialErrorView::Enumeration { reason } => "Failed to scan ports: "@ + reason,
            SerialErrorView::Open { port, reason } => "Failed to open port "@ + port + ": "@
                + reason,
            SerialErrorView::Write { reason } => "Failed to send message: "@ + reason,
        }
    }
}

impl View for SerialError {
    type V = SerialErrorView;

    open spec fn view(&self) -> SerialErrorView {
        match self {
            SerialError::Enumeration { reason } => SerialErrorView::Enumeration {
                reason: reason@,
            },
            SerialError::Open { port, reason } => SerialErrorView::Open {
                port: port@,
                reason: reason@,
            },
            SerialError::Write { reason } => SerialErrorView::Write { reason: reason@ },
        }
    }
}

impl SerialError {
    /// The notice shown to the user for this failure.
    pub fn message(&self) -> (text: String)
        ensures
            text@ == self@.text(),
    {
        match self {
            SerialError::Enumeration { reason } => {
                let mut text = String::from_str("Failed to scan ports: ");
                text.append(reason.as_str());
                text
            },
            SerialError::Open { port, reason } => {
                let mut text = String::from_str("Failed to open port ");
                text.append(port.as_str());
                text.append(": ");
                text.append(reason.as_str());
                text
            },
            SerialError::Write { reason } => {
                let mut text = String::from_str("Failed to send message: ");
                text.append(reason.as_str());
                text
            },
        }
    }
}

} // verus!
