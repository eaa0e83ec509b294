//! The state of the screen on which the user picks the port of the device.
use crate::serial::PortWithSerialNumber;
use vstd::prelude::*;

verus! {

/// Which port is picked, and the error that is shown, if any.
#[derive(Clone, Debug, PartialEq, Eq)]
pub struct HomeState {
    pub selected_port: Option<PortWithSerialNumber>,
    pub error_text: Option<String>,
}

impl HomeState {
    /// The state at start: where exactly one port of the device was found it
    /// is picked, else none is; no error is shown.
    pub fn new(ports: Vec<PortWithSerialNumber>) -> (r: HomeState)
        ensures
            r.selected_port == if ports@.len() == 1 {
                Some(ports@[0])
            } else {
                None
            },
            r.error_text is None,
    {
        let mut ports = ports;
        let selected_port = if ports.len() == 1 {
            ports.pop()
        } else {
            None
        };
        HomeState { selected_port, error_text: None }
    }

    /// The user picked `port`.
    pub fn select_port(&mut self, port: PortWithSerialNumber)
        ensures
            final(self).selected_port == Some(port),
            final(self).error_text == old(self).error_text,
    {
        self.selected_port = Some(port);
    }

    /// The user closed the error.
    pub fn close_modal(&mut self)
        ensures
            final(self).selected_port == old(self).selected_port,
            final(self).error_text is None,
    {
        self.error_text = None;
    }
}

} // verus!
