use vstd::prelude::*;
use vstd::string::*;

use crate::text::{decimal_view, u32_to_decimal};

verus! {

broadcast use vstd::string::group_string_axioms;

/// The address a listener binds: `<host>:<port>`.
pub fn listen_address(host: &str, port: u16) -> (r: String)
    ensures
        r@ == host@ + ":"@ + decimal_view(port as nat),
{
    String::from_str(host).concat(":").concat(u32_to_decimal(port as u32).as_str())
}

/// What setting up a service's listener gave.
pub enum ListenOutcome {
    /// Binding the address failed, for this reason.
    BindFailed(String),
    /// The bound socket's own address could not be read, for this reason.
    AddressFailed(String),
    /// The listener is bound.
    Listening,
}

/// Running state of a service that runs as a task of this process until it
/// is told to stop (the HTTP front door, the gateway, the MQTT client).
pub struct TaskLifecycle {
    running: bool,
}

impl TaskLifecycle {
    pub closed spec fn running(&self) -> bool {
        self.running
    }

    pub fn new() -> (l: TaskLifecycle)
        ensures
            !l.running(),
    {
        TaskLifecycle { running: false }
    }

    pub fn is_running(&self) -> (r: bool)
        ensures
            r == self.running(),
    {
        self.running
    }

    /// Examine a start request: refused while the task runs.
    pub fn check_start(&self, name: &str) -> (r: Result<(), String>)
        ensures
            r is Ok <==> !self.running(),
            r matches Err(e) ==> e@ == name@ + " is already running"@,
    {
        if self.running {
            Err(String::from_str(name).concat(" is already running"))
        } else {
            Ok(())
        }
    }

    /// Finish a start that [`TaskLifecycle::check_start`] accepted, once the
    /// service's `what` (its listener) has been set up on `addr`: the service
    /// runs, reporting process id 0, exactly when the listener is bound;
    /// otherwise it stays stopped and the error says what failed.
    pub fn finish_start(&mut self, what: &str, addr: &str, listen: ListenOutcome) -> (r: Result<u32, String>)
        requires
            !old(self).running(),
        ensures
            (match listen {
                ListenOutcome::BindFailed(e) => r matches Err(m)
                    && m@ == "Failed to bind "@ + what@ + " on "@ + addr@ + ": "@ + e@,
                ListenOutcome::AddressFailed(e) => r matches Err(m) && m@ == "Failed to get local address: "@ + e@,
                ListenOutcome::Listening => r == Ok::<u32, String>(0),
            }),
            final(self).running() <==> listen is Listening,
    {
        match listen {
            ListenOutcome::BindFailed(e) => Err(
                String::from_str("Failed to bind ").concat(what).concat(" on ").concat(addr).concat(": ").concat(e.as_str()),
            ),
            ListenOutcome::AddressFailed(e) => Err(String::from_str("Failed to get local address: ").concat(e.as_str())),
            ListenOutcome::Listening => {
                self.running = true;
                Ok(0)
            },
        }
    }

    /// Stop request: the task is told to stop when it runs; refused otherwise.
    pub fn stop(&mut self, name: &str) -> (r: Result<(), String>)
        ensures
            r is Ok <==> old(self).running(),
            r matches Err(e) ==> e@ == name@ + " is not running"@,
            !final(self).running(),
    {
        if self.running {
            self.running = false;
            Ok(())
        } else {
            Err(String::from_str(name).concat(" is not running"))
        }
    }
}

} // verus!
