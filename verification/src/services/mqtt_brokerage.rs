use vstd::prelude::*;
use vstd::string::*;

use crate::capabilities::ServiceCapabilities;
use crate::service_id::ServiceId;
use crate::supervisor::{initial_status, Supervisor};

verus! {

broadcast use vstd::string::group_string_axioms;

/// Register the Mosquitto broker with the supervisor; it is available
/// exactly when the `mosquitto` binary was found. Returns that availability.
pub fn register_onto<S>(supervisor: &mut Supervisor<S>, capabilities: &ServiceCapabilities, service: S) -> (available: bool)
    requires
        old(supervisor).wf(),
        capabilities.wf(),
    ensures
        available == (capabilities@.contains_key("mosquitto"@) && capabilities@["mosquitto"@] is Some),
        final(supervisor).wf(),
        final(supervisor)@ == old(supervisor)@.insert(ServiceId::Mosquitto, initial_status(available)),
        final(supervisor).services() == old(supervisor).services().insert(ServiceId::Mosquitto, service),
        final(supervisor).queue_capacity() == old(supervisor).queue_capacity(),
{
    let available = capabilities.is_available("mosquitto");
    supervisor.register(ServiceId::Mosquitto, service, available);
    available
}

/// Which binaries the broker service runs, as found at startup.
pub struct BrokerBinaries {
    /// `mosquitto` where it was found, else the bare name.
    pub broker: String,
    /// `mosquitto_passwd` where it was found.
    pub passwd: Option<String>,
}

/// The binaries the broker service is built with.
pub fn broker_binaries(capabilities: &ServiceCapabilities) -> (b: BrokerBinaries)
    requires
        capabilities.wf(),
    ensures
        (capabilities@.contains_key("mosquitto"@) && capabilities@["mosquitto"@] is Some)
            ==> b.broker@ == capabilities@["mosquitto"@]->0.path,
        !(capabilities@.contains_key("mosquitto"@) && capabilities@["mosquitto"@] is Some)
            ==> b.broker@ == "mosquitto"@,
        b.passwd is Some <==> (capabilities@.contains_key("mosquitto_passwd"@) && capabilities@["mosquitto_passwd"@] is Some),
        b.passwd matches Some(p) ==> p@ == capabilities@["mosquitto_passwd"@]->0.path,
{
    let broker = match capabilities.binary_path("mosquitto") {
        Some(p) => String::from_str(p),
        None => String::from_str("mosquitto"),
    };
    let passwd = match capabilities.binary_path("mosquitto_passwd") {
        Some(p) => Some(String::from_str(p)),
        None => None,
    };
    BrokerBinaries { broker, passwd }
}

/// Whether the initial broker user must be written to the password file:
/// only when the broker is available and runs without TLS (with TLS, clients
/// authenticate with certificates instead).
pub fn seeds_password(available: bool, tls_enabled: bool) -> (r: bool)
    ensures
        r == (available && !tls_enabled),
{
    available && !tls_enabled
}

/// A command to run: the program and its arguments.
pub struct CommandLine {
    pub program: String,
    pub args: Vec<String>,
}

pub open spec fn args_view(args: Seq<String>) -> Seq<Seq<char>> {
    args.map_values(|a: String| a@)
}

/// How to start the broker: `<binary> -c <config file>`, refused while the
/// broker runs or when its configuration file is missing.
pub fn start_command(binary: &str, child_running: bool, config_file: &str, config_exists: bool) -> (r: Result<CommandLine, String>)
    ensures
        child_running ==> (r matches Err(e) && e@ == "Mosquitto is already running"@),
        !child_running && !config_exists ==> (r matches Err(e)
            && e@ == "Config file not found at "@ + config_file@ + ". Call write_config() first."@),
        !child_running && config_exists ==> (r matches Ok(c)
            && c.program@ == binary@
            && args_view(c.args@) == seq!["-c"@, config_file@]),
{
    if child_running {
        return Err(String::from_str("Mosquitto is already running"));
    }
    if !config_exists {
        return Err(String::from_str("Config file not found at ").concat(config_file).concat(". Call write_config() first."));
    }
    let mut args: Vec<String> = Vec::new();
    args.push(String::from_str("-c"));
    args.push(String::from_str(config_file));
    proof {
        assert(args_view(args@) =~= seq!["-c"@, config_file@]);
    }
    Ok(CommandLine { program: String::from_str(binary), args })
}

/// The process id of a freshly spawned broker.
pub fn spawned_pid(pid: Option<u32>) -> (r: Result<u32, String>)
    ensures
        pid matches Some(p) ==> r == Ok::<u32, String>(p),
        pid is None ==> (r matches Err(e) && e@ == "Failed to get mosquitto PID"@),
{
    match pid {
        Some(p) => Ok(p),
        None => Err(String::from_str("Failed to get mosquitto PID")),
    }
}

/// How long a stopping broker is given to exit after being asked to
/// terminate, before it is killed.
pub const GRACEFUL_STOP_SECS: u64 = 5;

/// How to stop the broker process: ask the process with this id to
/// terminate (`SIGTERM`, when its id is known), then wait for it at most
/// this many seconds.
pub struct StopPlan {
    pub terminate_pid: Option<u32>,
    pub grace_secs: u64,
}

/// A stop request: refused when no broker process is held; otherwise the
/// held process is asked to terminate and given [`GRACEFUL_STOP_SECS`]
/// seconds. The process handle is given up either way once accepted.
pub fn stop_plan(child_running: bool, pid: Option<u32>) -> (r: Result<StopPlan, String>)
    ensures
        !child_running ==> (r matches Err(e) && e@ == "Mosquitto is not running"@),
        child_running ==> (r matches Ok(p) && p.terminate_pid == pid && p.grace_secs == GRACEFUL_STOP_SECS),
{
    if child_running {
        Ok(StopPlan { terminate_pid: pid, grace_secs: GRACEFUL_STOP_SECS })
    } else {
        Err(String::from_str("Mosquitto is not running"))
    }
}

/// What waiting for a stopping broker gave.
pub enum WaitOutcome {
    /// It exited.
    Exited,
    /// Waiting for it failed.
    WaitFailed,
    /// It had not exited when the grace period ended.
    TimedOut,
}

/// After the wait: whether the process must be killed (only when it did not
/// exit in time), and the outcome of the stop, which succeeds whatever the
/// wait gave.
pub fn after_wait(wait: WaitOutcome) -> (r: (bool, Result<(), String>))
    ensures
        r.0 == (wait is TimedOut),
        r.1 is Ok,
{
    match wait {
        WaitOutcome::TimedOut => (true, Ok(())),
        _ => (false, Ok(())),
    }
}

/// What asking the broker process whether it has exited gave.
pub enum ChildPoll {
    Exited,
    StillRunning,
    PollFailed,
}

/// Whether the broker counts as running after a poll, and whether its
/// process handle is kept: an exited process is forgotten; a failed poll
/// reports "not running" but keeps the handle.
pub fn poll_outcome(child_present: bool, poll: ChildPoll) -> (r: (bool, bool))
    ensures
        !child_present ==> r == (false, false),
        child_present ==> r == (match poll {
            ChildPoll::Exited => (false, false),
            ChildPoll::StillRunning => (true, true),
            ChildPoll::PollFailed => (false, true),
        }),
{
    if !child_present {
        return (false, false);
    }
    match poll {
        ChildPoll::Exited => (false, false),
        ChildPoll::StillRunning => (true, true),
        ChildPoll::PollFailed => (false, true),
    }
}

/// How to add or update a broker user: `mosquitto_passwd -b <file> <user>
/// <password>`, with `-c` first when the password file does not exist yet
/// (which creates it).
pub fn set_password_command(
    passwd_binary: Option<&str>,
    password_file: &str,
    file_exists: bool,
    username: &str,
    password: &str,
) -> (r: Result<CommandLine, String>)
    ensures
        passwd_binary is None ==> (r matches Err(e) && e@ == "mosquitto_passwd is not installed"@),
        passwd_binary matches Some(b) ==> (r matches Ok(c) && c.program@ == b@ && args_view(c.args@) == (
            if file_exists {
                seq!["-b"@, password_file@, username@, password@]
            } else {
                seq!["-c"@, "-b"@, password_file@, username@, password@]
            }
        )),
{
    let program = match passwd_binary {
        Some(b) => String::from_str(b),
        None => return Err(String::from_str("mosquitto_passwd is not installed")),
    };
    let mut args: Vec<String> = Vec::new();
    if !file_exists {
        args.push(String::from_str("-c"));
    }
    args.push(String::from_str("-b"));
    args.push(String::from_str(password_file));
    args.push(String::from_str(username));
    args.push(String::from_str(password));
    proof {
        if file_exists {
            assert(args_view(args@) =~= seq!["-b"@, password_file@, username@, password@]);
        } else {
            assert(args_view(args@) =~= seq!["-c"@, "-b"@, password_file@, username@, password@]);
        }
    }
    Ok(CommandLine { program, args })
}

/// How to delete a broker user: `mosquitto_passwd -D <file> <user>`; refused
/// when the password file does not exist.
pub fn delete_user_command(passwd_binary: Option<&str>, password_file: &str, file_exists: bool, username: &str) -> (r: Result<CommandLine, String>)
    ensures
        passwd_binary is None ==> (r matches Err(e) && e@ == "mosquitto_passwd is not installed"@),
        passwd_binary is Some && !file_exists ==> (r matches Err(e) && e@ == "Password file does not exist"@),
        file_exists ==> (passwd_binary matches Some(b) ==> r matches Ok(c) && c.program@ == b@
            && args_view(c.args@) == seq!["-D"@, password_file@, username@]),
{
    let program = match passwd_binary {
        Some(b) => String::from_str(b),
        None => return Err(String::from_str("mosquitto_passwd is not installed")),
    };
    if !file_exists {
        return Err(String::from_str("Password file does not exist"));
    }
    let mut args: Vec<String> = Vec::new();
    args.push(String::from_str("-D"));
    args.push(String::from_str(password_file));
    args.push(String::from_str(username));
    proof {
        assert(args_view(args@) =~= seq!["-D"@, password_file@, username@]);
    }
    Ok(CommandLine { program, args })
}

/// The outcome of a `mosquitto_passwd` run: its error output when it failed.
pub fn passwd_outcome(success: bool, stderr: &str) -> (r: Result<(), String>)
    ensures
        r is Ok <==> success,
        r matches Err(e) ==> e@ == "mosquitto_passwd failed: "@ + stderr@,
{
    if success {
        Ok(())
    } else {
        Err(String::from_str("mosquitto_passwd failed: ").concat(stderr))
    }
}

} // verus!
