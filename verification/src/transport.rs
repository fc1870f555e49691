//! The boundary between the controller and the serial transport.
//!
//! The transport offers three operations: list the available ports, open a
//! port by name with given settings, and write bytes to the open
//! connection. An [`Action`] asks for one of them; an [`Event`] brings back
//! how it ended, or tells what the user did.

use vstd::prelude::*;
use crate::settings::PortSettings;

verus! {

/// What the host must do for the controller.
#[derive(Debug, PartialEq, Eq)]
pub enum Action {
    /// Nothing.
    Idle,
    /// List the serial ports of the host and report with
    /// [`Event::ScanFinished`].
    ListPorts,
    /// Open the named port with these settings and report with
    /// [`Event::OpenFinished`].
    OpenPort { name: String, settings: PortSettings },
    /// Write these bytes, unchanged, to the open connection in one call and
    /// report with [`Event::SendFinished`].
    Write { bytes: Vec<u8> },
}

/// Mathematical value of an [`Action`].
pub enum ActionView {
    Idle,
    ListPorts,
    OpenPort { name: Seq<char>, settings: PortSettings },
    Write { bytes: Seq<u8> },
}

impl View for Action {
    type V = ActionView;

    open spec fn view(&self) -> ActionView {
        match self {
            Action::Idle => ActionView::Idle,
            Action::ListPorts => ActionView::ListPorts,
            Action::OpenPort { name, settings } => ActionView::OpenPort {
                name: name@,
                settings: *settings,
            },
            Action::Write { bytes } => ActionView::Write { bytes: bytes@ },
        }
    }
}

/// What happened: a gesture of the user, or the end of a transport
/// operation. A failed operation carries the transport's description of
/// the failure.
#[derive(Debug, PartialEq, Eq)]
pub enum Event {
    /// The user replaced the text of the message buffer.
    MessageEdited(String),
    /// The user asked to send the message buffer.
    SendClicked,
    /// The user asked for a scan of the ports.
    ScanClicked,
    /// The user asked to open the named port.
    OpenClicked(String),
    /// The transport listed the ports, in this order, or failed to.
    ScanFinished(Result<Vec<String>, String>),
    /// The transport opened the named port, or failed to.
    OpenFinished { name: String, result: Result<(), String> },
    /// The transport accepted this many bytes of a write, or failed to
    /// write.
    SendFinished(Result<usize, String>),
}

/// Mathematical value of an [`Event`].
pub enum EventView {
    MessageEdited(Seq<char>),
    SendClicked,
    ScanClicked,
    OpenClicked(Seq<char>),
    ScanFinished(Result<Seq<Seq<char>>, Seq<char>>),
    OpenFinished { name: Seq<char>, result: Result<(), Seq<char>> },
    SendFinished(Result<usize, Seq<char>>),
}

/// Value of the result of a scan.
pub open spec fn scan_result_view(result: Result<Vec<String>, String>) -> Result<
    Seq<Seq<char>>,
    Seq<char>,
> {
    match result {
        Ok(names) => Ok(names.deep_view()),
        Err(reason) => Err(reason@),
    }
}

/// Value of the result of opening a port.
pub open spec fn open_result_view(result: Result<(), String>) -> Result<(), Seq<char>> {
    match result {
        Ok(_) => Ok(()),
        Err(reason) => Err(reason@),
    }
}

/// Value of the result of a write.
pub open spec fn send_result_view(result: Result<usize, String>) -> Result<usize, Seq<char>> {
    match result {
        Ok(count) => Ok(count),
        Err(reason) => Err(reason@),
    }
}

impl View for Event {
    type V = EventView;

    open spec fn view(&self) -> EventView {
        match self {
            Event::MessageEdited(text) => EventView::MessageEdited(text@),
            Event::SendClicked => EventView::SendClicked,
            Event::ScanClicked => EventView::ScanClicked,
            Event::OpenClicked(name) => EventView::OpenClicked(name@),
            Event::ScanFinished(result) => EventView::ScanFinished(scan_result_view(*result)),
            Event::OpenFinished { name, result } => EventView::OpenFinished {
                name: name@,
                result: open_result_view(*result),
            },
            Event::SendFinished(result) => EventView::SendFinished(send_result_view(*result)),
        }
    }
}

} // verus!
