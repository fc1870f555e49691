//! The controller as a mathematical state machine.
//!
//! The machine has two states. It starts disconnected, where the user may
//! scan for ports and open one. Once a port is open it is connected, where
//! the user may send messages. Nothing leads back.

use vstd::prelude::*;
use vstd::utf8::encode_utf8;
use crate::error::SerialErrorView;
use crate::settings::PortSettings;
use crate::transport::{ActionView, EventView};

verus! {

/// Everything the controller knows, as mathematical values.
pub struct AppModel {
    /// Name of the port that is open, if one is.
    pub connection: Option<Seq<char>>,
    /// Names of the ports found by the last successful scan, in the order
    /// in which the transport listed them.
    pub ports: Seq<Seq<char>>,
    /// The message buffer.
    pub message: Seq<char>,
    /// The failure of the last transport operation, if it failed.
    pub status: Option<SerialErrorView>,
}

impl AppModel {
    /// The state at start: disconnected, no ports known, an empty message
    /// and no notice.
    pub open spec fn initial() -> AppModel {
        AppModel { connection: None, ports: Seq::empty(), message: Seq::empty(), status: None }
    }

    /// Whether a port is open.
    pub open spec fn is_connected(self) -> bool {
        self.connection is Some
    }

    /// The state once the message buffer holds `text`.
    pub open spec fn edit_message(self, text: Seq<char>) -> AppModel {
        AppModel { message: text, ..self }
    }

    /// What a request to scan asks of the transport.
    pub open spec fn scan_ports(self) -> ActionView {
        if self.is_connected() {
            ActionView::Idle
        } else {
            ActionView::ListPorts
        }
    }

    /// What a request to open `name` asks of the transport. The name need
    /// not be one that a scan has found.
    pub open spec fn open_port(self, name: Seq<char>) -> ActionView {
        if self.is_connected() {
            ActionView::Idle
        } else {
            ActionView::OpenPort { name, settings: PortSettings::fixed() }
        }
    }

    /// What a request to send asks of the transport: the UTF-8 bytes of the
    /// message buffer, with nothing added.
    pub open spec fn send_message(self) -> ActionView {
        if self.is_connected() {
            ActionView::Write { bytes: encode_utf8(self.message) }
        } else {
            ActionView::Idle
        }
    }

    /// The state after a scan has ended with `result`.
    pub open spec fn scan_finished(self, result: Result<Seq<Seq<char>>, Seq<char>>) -> AppModel {
        if self.is_connected() {
            self
        } else {
            match result {
                Ok(names) => AppModel { ports: names, status: None, ..self },
                Err(reason) => AppModel {
                    status: Some(SerialErrorView::Enumeration { reason }),
                    ..self
                },
            }
        }
    }

    /// The state after an attempt to open `name` has ended with `result`.
    pub open spec fn open_finished(self, name: Seq<char>, result: Result<(), Seq<char>>)
        -> AppModel {
        if self.is_connected() {
            self
        } else {
            match result {
                Ok(_) => AppModel { connection: Some(name), status: None, ..self },
                Err(reason) => AppModel {
                    status: Some(SerialErrorView::Open { port: name, reason }),
                    ..self
                },
            }
        }
    }

    /// The state after a write has ended with `result`.
    pub open spec fn send_finished(self, result: Result<usize, Seq<char>>) -> AppModel {
        if self.is_connected() {
            match result {
                Ok(_) => AppModel { status: None, ..self },
                Err(reason) => AppModel {
                    status: Some(SerialErrorView::Write { reason }),
                    ..self
                },
            }
        } else {
            self
        }
    }

    /// One step of the machine: the next state, and what the transport
    /// must do.
    pub open spec fn step(self, event: EventView) -> (AppModel, ActionView) {
        match event {
            EventView::MessageEdited(text) => (self.edit_message(text), ActionView::Idle),
            EventView::SendClicked => (self, self.send_message()),
            EventView::ScanClicked => (self, self.scan_ports()),
            EventView::OpenClicked(name) => (self, self.open_port(name)),
            EventView::ScanFinished(result) => (self.scan_finished(result), ActionView::Idle),
            EventView::OpenFinished { name, result } => (
                self.open_finished(name, result),
                ActionView::Idle,
            ),
            EventView::SendFinished(result) => (self.send_finished(result), ActionView::Idle),
        }
    }

    /// The state after all of `events`, first to last.
    pub open spec fn run(self, events: Seq<EventView>) -> AppModel
        decreases events.len(),
    {
        if events.len() == 0 {
            self
        } else {
            self.step(events[0]).0.run(events.drop_first())
        }
    }

    /// What the transport is asked to do at each of `events`, first to
    /// last.
    pub open spec fn actions(self, events: Seq<EventView>) -> Seq<ActionView>
        decreases events.len(),
    {
        if events.len() == 0 {
            Seq::empty()
        } else {
            seq![self.step(events[0]).1] + self.step(events[0]).0.actions(events.drop_first())
        }
    }
}

} // verus!
