//! The controller: one owned state, changed only by what the user does and
//! by what the transport reports.

use vstd::prelude::*;
use vstd::string::{StrSliceExecFns, StringExecFns};
use vstd::utf8::encode_utf8;
use crate::error::SerialError;
use crate::model::AppModel;
use crate::settings::PortSettings;
use crate::transport::{
    open_result_view, scan_result_view, send_result_view, Action, ActionView, Event,
};

verus! {

/// State of the serial terminal.
///
/// The host owns the open connection itself; the controller records which
/// port it belongs to. There is at most one.
#[derive(Debug)]
pub struct SerialEmbedApp {
    current_port: Option<String>,
    ports: Vec<String>,
    message: String,
    status: Option<SerialError>,
}

impl View for SerialEmbedApp {
    type V = AppModel;

    closed spec fn view(&self) -> AppModel {
        AppModel {
            connection: match self.current_port {
                Some(name) => Some(name@),
                None => None,
            },
            ports: self.ports.deep_view(),
            message: self.message@,
            status: match self.status {
                Some(error) => Some(error@),
                None => None,
            },
        }
    }
}

impl Default for SerialEmbedApp {
    fn default() -> (app: Self)
        ensures
            app@ == AppModel::initial(),
    {
        SerialEmbedApp::new()
    }
}

impl SerialEmbedApp {
    /// A controller in its initial state.
    pub fn new() -> (app: Self)
        ensures
            app@ == AppModel::initial(),
    {
        let app = SerialEmbedApp {
            current_port: None,
            ports: Vec::new(),
            message: String::new(),
            status: None,
        };
        assert(app@.ports =~= Seq::empty());
        app
    }

    /// A disconnected controller that already knows `ports` and holds
    /// `message`, as when the known ports and the message buffer were kept
    /// from an earlier session. A connection is never kept.
    pub fn restore(ports: Vec<String>, message: String) -> (app: Self)
        ensures
            app@ == (AppModel {
                ports: ports.deep_view(),
                message: message@,
                ..AppModel::initial()
            }),
    {
        SerialEmbedApp { current_port: None, ports, message, status: None }
    }

    /// Whether a port is open.
    pub fn is_connected(&self) -> (connected: bool)
        ensures
            connected == self@.is_connected(),
    {
        self.current_port.is_some()
    }

    /// Whether the panel that offers the scan and the known ports is
    /// shown: only while no port is open.
    pub fn port_panel_visible(&self) -> (visible: bool)
        ensures
            visible == !self@.is_connected(),
    {
        self.current_port.is_none()
    }

    /// Name of the port that is open, if one is.
    pub fn current_port(&self) -> (name: Option<&str>)
        ensures
            match name {
                Some(name) => self@.connection == Some(name@),
                None => self@.connection is None,
            },
    {
        match &self.current_port {
            Some(name) => Some(name.as_str()),
            None => None,
        }
    }

    /// Names of the ports found by the last successful scan, in the order
    /// in which the transport listed them.
    pub fn ports(&self) -> (ports: &Vec<String>)
        ensures
            ports.deep_view() == self@.ports,
    {
        &self.ports
    }

    /// Text of the message buffer.
    pub fn message(&self) -> (text: &str)
        ensures
            text@ == self@.message,
    {
        self.message.as_str()
    }

    /// The failure of the last transport operation, if it failed.
    pub fn status(&self) -> (status: Option<&SerialError>)
        ensures
            match status {
                Some(error) => self@.status == Some(error@),
                None => self@.status is None,
            },
    {
        match &self.status {
            Some(error) => Some(error),
            None => None,
        }
    }

    /// The notice to show for the last transport operation, if it failed.
    pub fn status_text(&self) -> (text: Option<String>)
        ensures
            match text {
                Some(text) => self@.status is Some && text@ == self@.status->0.text(),
                None => self@.status is None,
            },
    {
        match &self.status {
            Some(error) => Some(error.message()),
            None => None,
        }
    }

    /// What a request to scan asks of the transport: a listing while
    /// disconnected, nothing while connected.
    pub fn scan_ports(&self) -> (action: Action)
        ensures
            action@ == self@.scan_ports(),
            self@.is_connected() ==> action@ == ActionView::Idle,
            !self@.is_connected() ==> action@ == ActionView::ListPorts,
    {
        if self.current_port.is_some() {
            Action::Idle
        } else {
            Action::ListPorts
        }
    }

    /// What a request to open `name` asks of the transport. While
    /// disconnected the port is opened whether or not a scan has found it;
    /// while connected nothing is asked.
    pub fn open_port(&self, name: &str) -> (action: Action)
        ensures
            action@ == self@.open_port(name@),
            self@.is_connected() ==> action@ == ActionView::Idle,
            !self@.is_connected() ==> action@ == (ActionView::OpenPort {
                name: name@,
                settings: PortSettings::fixed(),
            }),
    {
        if self.current_port.is_some() {
            Action::Idle
        } else {
            Action::OpenPort { name: String::from_str(name), settings: PortSettings::fixed() }
        }
    }

    /// What a request to send asks of the transport: while connected, one
    /// write of the bytes of the message buffer; while disconnected,
    /// nothing. The buffer keeps its text.
    pub fn send_message(&self) -> (action: Action)
        ensures
            action@ == self@.send_message(),
            self@.is_connected() ==> action@ == (ActionView::Write {
                bytes: encode_utf8(self@.message),
            }),
            !self@.is_connected() ==> action@ == ActionView::Idle,
    {
        if self.current_port.is_some() {
            Action::Write { bytes: self.message.as_str().as_bytes_vec() }
        } else {
            Action::Idle
        }
    }

    /// Replaces the text of the message buffer.
    pub fn set_message(&mut self, text: String)
        ensures
            final(self)@ == old(self)@.edit_message(text@),
    {
        self.message = text;
    }

    /// Takes in the result of a scan. While disconnected, a listing
    /// replaces the known ports as it is, and a failure leaves them and
    /// becomes the notice. While connected nothing changes.
    pub fn scan_finished(&mut self, result: Result<Vec<String>, String>)
        ensures
            final(self)@ == old(self)@.scan_finished(scan_result_view(result)),
            old(self)@.is_connected() ==> final(self)@ == old(self)@,
            !old(self)@.is_connected() ==> match result {
                Ok(names) => final(self)@.ports == names.deep_view(),
                Err(reason) => final(self)@.ports == old(self)@.ports,
            },
    {
        if self.current_port.is_none() {
            match result {
                Ok(names) => {
                    self.ports = names;
                    self.status = None;
                },
                Err(reason) => {
                    self.status = Some(SerialError::Enumeration { reason });
                },
            }
        }
    }

    /// Takes in the result of opening `name`. While disconnected, success
    /// connects the controller to `name`, and a failure leaves it
    /// disconnected and becomes the notice. While connected nothing
    /// changes: the connection is never replaced.
    pub fn open_finished(&mut self, name: String, result: Result<(), String>)
        ensures
            final(self)@ == old(self)@.open_finished(name@, open_result_view(result)),
            old(self)@.is_connected() ==> final(self)@ == old(self)@,
            !old(self)@.is_connected() ==> match result {
                Ok(_) => final(self)@.connection == Some(name@),
                Err(_) => final(self)@.connection is None,
            },
    {
        if self.current_port.is_none() {
            match result {
                Ok(_) => {
                    self.current_port = Some(name);
                    self.status = None;
                },
                Err(reason) => {
                    self.status = Some(SerialError::Open { port: name, reason });
                },
            }
        }
    }

    /// Takes in the result of a write. While connected, a failure becomes
    /// the notice and success clears it; the connection, the known ports
    /// and the message buffer stay as they are. The count of bytes that
    /// the transport accepted is not read: nothing is sent again. While
    /// disconnected nothing changes.
    pub fn send_finished(&mut self, result: Result<usize, String>)
        ensures
            final(self)@ == old(self)@.send_finished(send_result_view(result)),
            !old(self)@.is_connected() ==> final(self)@ == old(self)@,
            final(self)@.connection == old(self)@.connection,
            final(self)@.ports == old(self)@.ports,
            final(self)@.message == old(self)@.message,
    {
        if self.current_port.is_some() {
            match result {
                Ok(_) => {
                    self.status = None;
                },
                Err(reason) => {
                    self.status = Some(SerialError::Write { reason });
                },
            }
        }
    }

    /// Takes in one event and says what the transport must do next. An
    /// open connection outlives every event.
    pub fn step(&mut self, event: Event) -> (action: Action)
        ensures
            (final(self)@, action@) == old(self)@.step(event@),
            old(self)@.is_connected() ==> final(self)@.connection == old(self)@.connection,
            old(self)@.is_connected() ==> action@ is Idle || action@ is Write,
    {
        match event {
            Event::MessageEdited(text) => {
                self.set_message(text);
                Action::Idle
            },
            Event::SendClicked => self.send_message(),
            Event::ScanClicked => self.scan_ports(),
            Event::OpenClicked(name) => self.open_port(name.as_str()),
            Event::ScanFinished(result) => {
                self.scan_finished(result);
                Action::Idle
            },
            Event::OpenFinished { name, result } => {
                self.open_finished(name, result);
                Action::Idle
            },
            Event::SendFinished(result) => {
                self.send_finished(result);
                Action::Idle
            },
        }
    }
}

} // verus!
