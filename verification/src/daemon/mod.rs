//! The daemon: its life cycle, its accept loop and what it does with a
//! request.

pub mod daemon_action;
pub mod pid;
pub mod process;
pub mod wire;

use vstd::prelude::*;
use vstd::slice::slice_subrange;
use vstd::string::*;

use crate::config::termsfx_config::{loadable, playlist, TermsfxConfig};
use crate::config::termsfx_config_loader::{
    load_outcome, reloaded, update_view, LoadError, TermsfxConfigLoader,
};
use crate::config::termsfx_config_source::{CommandRule, TermsfxConfigSource};
use crate::daemon::daemon_action::{DaemonAction, DispatchAction};
use crate::daemon::pid::{decimal_digits, decimal_text, parse_pid, parsed_pid};
use crate::daemon::process::{process_exists, terminate_process};
use crate::daemon::wire::{
    decode_action, lemma_decoding_inverts_encoding, wire_decoding, wire_encoding, DecodeError,
};

verus! {

/// The file that takes the daemon's standard output.
pub const DAEMON_STDOUT_FILE_PATH: &'static str = "/tmp/termsfx_daemon.out";

/// The file that takes the daemon's standard error.
pub const DAEMON_STDERR_FILE_PATH: &'static str = "/tmp/termsfx_daemon.err";

/// The file that records the daemon's process id.
pub const DAEMON_PID_FILE_PATH: &'static str = "/tmp/termsfx_daemon.pid";

/// The socket on which the daemon listens.
pub const DAEMON_SOCK_FILE_PATH: &'static str = "/tmp/termsfx_daemon.sock";

/// The number of bytes that are read of a request.
pub const REQUEST_BUFFER_SIZE: usize = 1024;

/// The milliseconds that the daemon pauses between two connections.
pub const ACCEPT_DELAY_MILLIS: u64 = 100;

/// What the PID file says.
#[derive(Debug, Clone, Copy, PartialEq, Eq, Structural)]
pub enum PidRecord {
    /// There is no PID file.
    Missing,
    /// The PID file holds no process id.
    Invalid,
    /// The PID file holds this process id.
    Recorded(u32),
}

/// What a PID file with these contents says; `None` stands for no file.
pub open spec fn pid_record(pid_file: Option<Seq<char>>) -> PidRecord {
    match pid_file {
        None => PidRecord::Missing,
        Some(contents) => match parsed_pid(contents) {
            Some(pid) => PidRecord::Recorded(pid),
            None => PidRecord::Invalid,
        },
    }
}

/// The contents of a PID file as the contracts see them.
pub open spec fn contents_view(pid_file: Option<&str>) -> Option<Seq<char>> {
    match pid_file {
        Some(contents) => Some(contents@),
        None => None,
    }
}

/// Reads what the PID file says; `None` stands for no file.
pub fn read_pid_record(pid_file: Option<&str>) -> (record: PidRecord)
    ensures
        record == pid_record(contents_view(pid_file)),
{
    match pid_file {
        None => PidRecord::Missing,
        Some(contents) => match parse_pid(contents) {
            Some(pid) => PidRecord::Recorded(pid),
            None => PidRecord::Invalid,
        },
    }
}

/// Whether the daemon runs, as `status` reports it.
#[derive(Debug, Clone, Copy, PartialEq, Eq, Structural)]
pub enum DaemonStatus {
    /// The PID file names a process that exists.
    Running(u32),
    /// The PID file names a process that does not exist.
    Stale(u32),
    /// The PID file holds no process id.
    InvalidPid,
    /// There is no PID file.
    NotRunning,
}

/// What came of an attempt to stop the daemon.
#[derive(Debug, Clone, Copy, PartialEq, Eq, Structural)]
pub enum StopOutcome {
    /// The process was asked to terminate.
    Stopped(u32),
    /// The process exists, and the signal could not be sent.
    SignalFailed(u32),
    /// The PID file names a process that does not exist.
    NoProcess(u32),
    /// The PID file holds no process id.
    InvalidPid,
    /// There is no PID file.
    NotRunning,
}

/// The status for a PID file that says `record`, where `alive` tells whether
/// the recorded process exists.
pub open spec fn status_of(record: PidRecord, alive: bool) -> DaemonStatus {
    match record {
        PidRecord::Missing => DaemonStatus::NotRunning,
        PidRecord::Invalid => DaemonStatus::InvalidPid,
        PidRecord::Recorded(pid) => if alive {
            DaemonStatus::Running(pid)
        } else {
            DaemonStatus::Stale(pid)
        },
    }
}

/// The outcome of a stop for a PID file that says `record`. `sent` is
/// nothing where the recorded process does not exist; otherwise it tells
/// whether the platform knows the signal and, if so, whether it was
/// delivered.
pub open spec fn stop_of(record: PidRecord, sent: Option<Option<bool>>) -> StopOutcome {
    match record {
        PidRecord::Missing => StopOutcome::NotRunning,
        PidRecord::Invalid => StopOutcome::InvalidPid,
        PidRecord::Recorded(pid) => match sent {
            None => StopOutcome::NoProcess(pid),
            Some(Some(true)) => StopOutcome::Stopped(pid),
            Some(_) => StopOutcome::SignalFailed(pid),
        },
    }
}

impl DaemonStatus {
    /// Whether the daemon is running.
    pub open spec fn running(self) -> bool {
        self is Running
    }

    /// Whether the daemon is running.
    pub fn is_running(self) -> (running: bool)
        ensures
            running == self.running(),
    {
        match self {
            DaemonStatus::Running(_) => true,
            _ => false,
        }
    }

    /// Whether the status is reported as an error.
    pub fn is_error(self) -> (error: bool)
        ensures
            error <==> self is InvalidPid,
    {
        match self {
            DaemonStatus::InvalidPid => true,
            _ => false,
        }
    }

    /// The status in words.
    pub open spec fn text(self) -> Seq<char> {
        match self {
            DaemonStatus::Running(pid) => "Daemon is running with PID "@ + decimal_digits(
                pid as nat,
            ),
            DaemonStatus::Stale(_) => "Daemon PID file found but process is not running"@,
            DaemonStatus::InvalidPid => "Invalid PID in "@ + DAEMON_PID_FILE_PATH@,
            DaemonStatus::NotRunning => "Daemon is not running"@,
        }
    }

    /// The status in words.
    pub fn message(self) -> (message: String)
        ensures
            message@ == self.text(),
    {
        match self {
            DaemonStatus::Running(pid) => "Daemon is running with PID ".to_owned().concat(
                decimal_text(pid).as_str(),
            ),
            DaemonStatus::Stale(_) => "Daemon PID file found but process is not running".to_owned(),
            DaemonStatus::InvalidPid => "Invalid PID in ".to_owned().concat(DAEMON_PID_FILE_PATH),
            DaemonStatus::NotRunning => "Daemon is not running".to_owned(),
        }
    }
}

impl StopOutcome {
    /// Whether the outcome is reported as an error: everything is but a
    /// signal that was delivered.
    pub fn is_error(self) -> (error: bool)
        ensures
            error <==> !(self is Stopped),
    {
        match self {
            StopOutcome::Stopped(_) => false,
            _ => true,
        }
    }

    /// The outcome in words.
    pub open spec fn text(self) -> Seq<char> {
        match self {
            StopOutcome::Stopped(_) => "Daemon stopped successfully"@,
            StopOutcome::SignalFailed(_) => "Failed to stop daemon"@,
            StopOutcome::NoProcess(pid) => "No process found with PID "@ + decimal_digits(
                pid as nat,
            ),
            StopOutcome::InvalidPid => "Invalid PID in "@ + DAEMON_PID_FILE_PATH@,
            StopOutcome::NotRunning => "Daemon is not running or PID file not found"@,
        }
    }

    /// The outcome in words.
    pub fn message(self) -> (message: String)
        ensures
            message@ == self.text(),
    {
        match self {
            StopOutcome::Stopped(_) => "Daemon stopped successfully".to_owned(),
            StopOutcome::SignalFailed(_) => "Failed to stop daemon".to_owned(),
            StopOutcome::NoProcess(pid) => "No process found with PID ".to_owned().concat(
                decimal_text(pid).as_str(),
            ),
            StopOutcome::InvalidPid => "Invalid PID in ".to_owned().concat(DAEMON_PID_FILE_PATH),
            StopOutcome::NotRunning => "Daemon is not running or PID file not found".to_owned(),
        }
    }
}

/// A step on the way from the command line to the running daemon.
#[derive(Debug, Clone, Copy, PartialEq, Eq, Structural)]
pub enum StartStage {
    /// Create the file that takes the daemon's standard output.
    StdoutLog,
    /// Create the file that takes the daemon's standard error.
    StderrLog,
    /// Detach from the terminal, redirect the output and record the process
    /// id in the PID file.
    Detach,
    /// Open the audio output.
    Audio,
    /// Load the configuration for the first time.
    Config,
}

/// What follows a stage of the start, as the contracts see it.
pub enum StartPlan {
    /// Go on with this stage.
    Proceed(StartStage),
    /// Everything is ready: serve requests.
    Serve,
    /// Give up: report the message and leave with the exit code.
    Abort(Seq<char>, i32),
}

/// What follows a stage of the start.
#[derive(Debug, Clone, PartialEq, Eq)]
pub enum StartStep {
    /// Go on with this stage.
    Proceed(StartStage),
    /// Everything is ready: serve requests.
    Serve,
    /// Give up: report the message and leave with the exit code.
    Abort(String, i32),
}

impl View for StartStep {
    type V = StartPlan;

    open spec fn view(&self) -> StartPlan {
        match self {
            StartStep::Proceed(stage) => StartPlan::Proceed(*stage),
            StartStep::Serve => StartPlan::Serve,
            StartStep::Abort(message, code) => StartPlan::Abort(message@, *code),
        }
    }
}

impl StartStage {
    /// The stage that follows, if one does.
    pub open spec fn next(self) -> Option<StartStage> {
        match self {
            StartStage::StdoutLog => Some(StartStage::StderrLog),
            StartStage::StderrLog => Some(StartStage::Detach),
            StartStage::Detach => Some(StartStage::Audio),
            StartStage::Audio => Some(StartStage::Config),
            StartStage::Config => None,
        }
    }

    /// The words that introduce a failure of the stage.
    pub open spec fn failure_prefix(self) -> Seq<char> {
        match self {
            StartStage::StdoutLog => "Failed to create stdout log file: "@,
            StartStage::StderrLog => "Failed to create stderr log file: "@,
            StartStage::Detach => "Error, daemonization failed: "@,
            StartStage::Audio => "Failed to initialize audio output: "@,
            StartStage::Config => "Failed to load configuration: "@,
        }
    }

    /// The exit code after a failure of the stage. A failure to detach is
    /// reported and the process then ends as usual; every other failure ends
    /// it with the code 1.
    pub open spec fn failure_code(self) -> i32 {
        match self {
            StartStage::Detach => 0,
            _ => 1,
        }
    }

    /// What follows the stage: after a failure, described by `failure`, the
    /// start is given up; otherwise the next stage follows, and after the
    /// last one the daemon serves.
    pub open spec fn followed_by(self, failure: Option<Seq<char>>) -> StartPlan {
        match failure {
            Some(detail) => StartPlan::Abort(self.failure_prefix() + detail, self.failure_code()),
            None => match self.next() {
                Some(stage) => StartPlan::Proceed(stage),
                None => StartPlan::Serve,
            },
        }
    }
}

/// What happened at the daemon's socket.
#[derive(Debug, Clone, Copy, PartialEq, Eq, Structural)]
pub enum ServerEvent {
    /// The daemon is about to listen.
    Started,
    /// The socket is bound.
    Bound,
    /// The socket could not be bound.
    BindFailed,
    /// A client has connected.
    Accepted,
    /// A connection could not be accepted.
    AcceptFailed,
}

/// What the accept loop does next, as the contracts see it.
pub enum ServerPlan {
    /// Remove what an earlier daemon left at the socket's path, then bind.
    Bind,
    /// Announce the socket and wait for a connection.
    Listen,
    /// Hand the connection, with these rules, to a task of its own; then
    /// pause and wait for the next connection.
    Serve(Seq<CommandRule>),
    /// Report the failure; then pause and wait for the next connection.
    Retry,
    /// Report the failure and leave the loop.
    Exit,
}

/// What the accept loop does next.
#[derive(Debug)]
pub enum ServerStep {
    /// Remove what an earlier daemon left at the socket's path, then bind.
    Bind,
    /// Announce the socket and wait for a connection.
    Listen,
    /// Hand the connection, with this snapshot of the configuration, to a
    /// task of its own; then pause and wait for the next connection.
    Serve(TermsfxConfig),
    /// Report the failure; then pause and wait for the next connection.
    Retry,
    /// Report the failure and leave the loop.
    Exit,
}

impl View for ServerStep {
    type V = ServerPlan;

    open spec fn view(&self) -> ServerPlan {
        match self {
            ServerStep::Bind => ServerPlan::Bind,
            ServerStep::Listen => ServerPlan::Listen,
            ServerStep::Serve(config) => ServerPlan::Serve(config@),
            ServerStep::Retry => ServerPlan::Retry,
            ServerStep::Exit => ServerPlan::Exit,
        }
    }
}

/// What the accept loop does after `event` while `rules` are in force.
pub open spec fn server_plan(event: ServerEvent, rules: Seq<CommandRule>) -> ServerPlan {
    match event {
        ServerEvent::Started => ServerPlan::Bind,
        ServerEvent::Bound => ServerPlan::Listen,
        ServerEvent::BindFailed => ServerPlan::Exit,
        ServerEvent::Accepted => ServerPlan::Serve(rules),
        ServerEvent::AcceptFailed => ServerPlan::Retry,
    }
}

/// What the daemon does for a request, as the contracts see it.
pub enum DispatchPlan {
    /// Play these audio files, in this order.
    Play(Seq<Seq<char>>),
    /// The request is not served.
    Unsupported,
}

/// What the daemon does for a request.
#[derive(Debug, Clone, PartialEq, Eq)]
pub enum Dispatch {
    /// Play these audio files, in this order.
    Play(Vec<String>),
    /// The request is not served.
    Unsupported,
}

impl View for Dispatch {
    type V = DispatchPlan;

    open spec fn view(&self) -> DispatchPlan {
        match self {
            Dispatch::Play(queue) => DispatchPlan::Play(queue.deep_view()),
            Dispatch::Unsupported => DispatchPlan::Unsupported,
        }
    }
}

/// What the daemon does for `action` while `rules` are in force. A `Play`
/// plays the targets of every matching rule. A `PrintConfig` is not served
/// over the socket: the daemon notes it and does nothing.
pub open spec fn dispatch_of(action: DispatchAction, rules: Seq<CommandRule>) -> DispatchPlan {
    match action {
        DispatchAction::Play(command) => DispatchPlan::Play(playlist(rules, command)),
        DispatchAction::PrintConfig => DispatchPlan::Unsupported,
    }
}

/// What came of a connection, as the contracts see it.
pub enum Handling {
    /// The client sent nothing.
    Disconnected,
    /// The client sent no request.
    Malformed(DecodeError),
    /// The client sent this request, and this is done for it.
    Dispatched(DispatchAction, DispatchPlan),
}

/// What came of a connection.
#[derive(Debug, Clone, PartialEq, Eq)]
pub enum ClientOutcome {
    /// The client sent nothing.
    Disconnected,
    /// The client sent no request.
    Malformed(DecodeError),
    /// The client sent this request, and this is done for it.
    Dispatched(DaemonAction, Dispatch),
}

impl View for ClientOutcome {
    type V = Handling;

    open spec fn view(&self) -> Handling {
        match self {
            ClientOutcome::Disconnected => Handling::Disconnected,
            ClientOutcome::Malformed(error) => Handling::Malformed(*error),
            ClientOutcome::Dispatched(action, dispatch) => Handling::Dispatched(
                action@,
                dispatch@,
            ),
        }
    }
}

/// The part of `data` that the daemon looks at: what fits its buffer.
pub open spec fn request_bytes(data: Seq<u8>) -> Seq<u8> {
    if data.len() > REQUEST_BUFFER_SIZE {
        data.take(REQUEST_BUFFER_SIZE as int)
    } else {
        data
    }
}

/// What comes of a connection on which `data` arrived while `rules` are in
/// force.
pub open spec fn handling_of(data: Seq<u8>, rules: Seq<CommandRule>) -> Handling {
    if data.len() == 0 {
        Handling::Disconnected
    } else {
        match wire_decoding(request_bytes(data)) {
            Err(error) => Handling::Malformed(error),
            Ok(action) => Handling::Dispatched(action, dispatch_of(action, rules)),
        }
    }
}

/// Decides what to do for `action` under the configuration `config`.
pub fn process_event(action: &DaemonAction, config: &TermsfxConfig) -> (dispatch: Dispatch)
    ensures
        dispatch@ == dispatch_of(action@, config@),
{
    match action {
        DaemonAction::Play(command) => Dispatch::Play(config.playlist(command.as_str())),
        DaemonAction::PrintConfig => Dispatch::Unsupported,
    }
}

/// Handles what was read from a connection: `data` holds the bytes that
/// arrived, of which no more than the buffer's size are looked at.
///
/// A connection without data is a client that went away. Data that is no
/// request is reported and dropped. A request is dispatched under `config`.
pub fn handle_client(data: &[u8], config: &TermsfxConfig) -> (outcome: ClientOutcome)
    ensures
        outcome@ == handling_of(data@, config@),
{
    if data.len() == 0 {
        return ClientOutcome::Disconnected;
    }
    let request = if data.len() > REQUEST_BUFFER_SIZE {
        slice_subrange(data, 0, REQUEST_BUFFER_SIZE)
    } else {
        data
    };
    match decode_action(request) {
        Err(error) => ClientOutcome::Malformed(error),
        Ok(action) => {
            let dispatch = process_event(&action, config);
            ClientOutcome::Dispatched(action, dispatch)
        },
    }
}

/// The daemon.
#[derive(Debug)]
pub struct Daemon {
    config_loader: TermsfxConfigLoader,
}

impl Daemon {
    /// The rules in force.
    pub closed spec fn rules(&self) -> Seq<CommandRule> {
        self.config_loader.rules()
    }

    /// The directory of the configuration file.
    pub closed spec fn config_dir(&self) -> Seq<char> {
        self.config_loader.dir()
    }

    /// A daemon around the configuration store `config_loader`.
    pub fn new(config_loader: TermsfxConfigLoader) -> (daemon: Self)
        ensures
            daemon.rules() == config_loader.rules(),
            daemon.config_dir() == config_loader.dir(),
    {
        Daemon { config_loader }
    }

    /// The configuration store.
    pub fn config_loader(&self) -> (config_loader: &TermsfxConfigLoader)
        ensures
            config_loader.rules() == self.rules(),
            config_loader.dir() == self.config_dir(),
    {
        &self.config_loader
    }

    /// The first stage of a start.
    pub fn start() -> (stage: StartStage)
        ensures
            stage == StartStage::StdoutLog,
    {
        StartStage::StdoutLog
    }

    /// What follows `stage`: after a failure, described by `failure`, the
    /// start is given up with a message; otherwise the next stage follows,
    /// and after the last one the daemon serves.
    pub fn start_step(stage: StartStage, failure: Option<&str>) -> (step: StartStep)
        ensures
            step@ == stage.followed_by(contents_view(failure)),
    {
        match failure {
            Some(detail) => {
                let (prefix, code): (&'static str, i32) = match stage {
                    StartStage::StdoutLog => ("Failed to create stdout log file: ", 1),
                    StartStage::StderrLog => ("Failed to create stderr log file: ", 1),
                    StartStage::Detach => ("Error, daemonization failed: ", 0),
                    StartStage::Audio => ("Failed to initialize audio output: ", 1),
                    StartStage::Config => ("Failed to load configuration: ", 1),
                };
                StartStep::Abort(prefix.to_owned().concat(detail), code)
            },
            None => match stage {
                StartStage::StdoutLog => StartStep::Proceed(StartStage::StderrLog),
                StartStage::StderrLog => StartStep::Proceed(StartStage::Detach),
                StartStage::Detach => StartStep::Proceed(StartStage::Audio),
                StartStage::Audio => StartStep::Proceed(StartStage::Config),
                StartStage::Config => StartStep::Serve,
            },
        }
    }

    /// Stops the daemon as `stop` does and, whatever came of that, names the
    /// first stage of a new start.
    pub fn restart(pid_file: Option<&str>) -> (outcome: (StopOutcome, StartStage))
        ensures
            match pid_record(contents_view(pid_file)) {
                PidRecord::Missing => outcome.0 == StopOutcome::NotRunning,
                PidRecord::Invalid => outcome.0 == StopOutcome::InvalidPid,
                PidRecord::Recorded(pid) => outcome.0 == StopOutcome::Stopped(pid) || outcome.0
                    == StopOutcome::SignalFailed(pid) || outcome.0 == StopOutcome::NoProcess(pid),
            },
            outcome.1 == StartStage::StdoutLog,
    {
        let stopped = Self::stop(pid_file);
        (stopped, Self::start())
    }

    /// Decides what the accept loop does after `event`. A connection is
    /// served with a snapshot of the rules in force at that moment. No
    /// failure to accept ends the loop; only a socket that cannot be bound
    /// does.
    pub fn run(&self, event: ServerEvent) -> (step: ServerStep)
        ensures
            step@ == server_plan(event, self.rules()),
    {
        match event {
            ServerEvent::Started => ServerStep::Bind,
            ServerEvent::Bound => ServerStep::Listen,
            ServerEvent::BindFailed => ServerStep::Exit,
            ServerEvent::Accepted => ServerStep::Serve(self.config_loader.config()),
            ServerEvent::AcceptFailed => ServerStep::Retry,
        }
    }

    /// Loads the configuration for the first time; see
    /// `TermsfxConfigLoader::watch`.
    pub fn watch(&mut self, initial: Option<TermsfxConfigSource>) -> (outcome: Result<
        (),
        LoadError,
    >)
        ensures
            final(self).rules() == reloaded(
                old(self).rules(),
                update_view(initial),
                old(self).config_dir(),
            ),
            final(self).config_dir() == old(self).config_dir(),
            load_outcome(initial, outcome),
    {
        self.config_loader.watch(initial)
    }

    /// Takes in what was read from the configuration file after a change;
    /// see `TermsfxConfigLoader::reload`.
    pub fn reload(&mut self, update: Option<TermsfxConfigSource>) -> (outcome: Result<
        (),
        LoadError,
    >)
        ensures
            final(self).rules() == reloaded(
                old(self).rules(),
                update_view(update),
                old(self).config_dir(),
            ),
            final(self).config_dir() == old(self).config_dir(),
            load_outcome(update, outcome),
    {
        self.config_loader.reload(update)
    }

    /// The status for a PID file that says `record`, where `alive` tells
    /// whether the recorded process exists.
    pub fn status_with(record: PidRecord, alive: bool) -> (status: DaemonStatus)
        ensures
            status == status_of(record, alive),
    {
        match record {
            PidRecord::Missing => DaemonStatus::NotRunning,
            PidRecord::Invalid => DaemonStatus::InvalidPid,
            PidRecord::Recorded(pid) => if alive {
                DaemonStatus::Running(pid)
            } else {
                DaemonStatus::Stale(pid)
            },
        }
    }

    /// Reports whether the daemon runs. `pid_file` holds the contents of the
    /// PID file, or nothing where there is no such file.
    ///
    /// Without a PID file the daemon is not running. With a process id on
    /// file, the daemon is running exactly if the machine has that process.
    pub fn status(pid_file: Option<&str>) -> (status: DaemonStatus)
        ensures
            status == status_of(pid_record(contents_view(pid_file)), true) || status == status_of(
                pid_record(contents_view(pid_file)),
                false,
            ),
    {
        let record = read_pid_record(pid_file);
        match record {
            PidRecord::Recorded(pid) => {
                let alive = process_exists(pid);
                Self::status_with(record, alive)
            },
            _ => Self::status_with(record, false),
        }
    }

    /// The outcome of a stop for a PID file that says `record`. `sent` is
    /// nothing where the recorded process does not exist; otherwise it tells
    /// whether the platform knows the signal and, if so, whether it was
    /// delivered.
    pub fn stop_with(record: PidRecord, sent: Option<Option<bool>>) -> (outcome: StopOutcome)
        ensures
            outcome == stop_of(record, sent),
    {
        match record {
            PidRecord::Missing => StopOutcome::NotRunning,
            PidRecord::Invalid => StopOutcome::InvalidPid,
            PidRecord::Recorded(pid) => match sent {
                None => StopOutcome::NoProcess(pid),
                Some(Some(true)) => StopOutcome::Stopped(pid),
                Some(_) => StopOutcome::SignalFailed(pid),
            },
        }
    }

    /// Stops the daemon. `pid_file` holds the contents of the PID file, or
    /// nothing where there is no such file.
    ///
    /// Without a process id on file nothing is done. Otherwise the recorded
    /// process, if the machine has it, is asked to terminate; the outcome
    /// tells whether the signal was delivered, not whether the process is
    /// gone.
    pub fn stop(pid_file: Option<&str>) -> (outcome: StopOutcome)
        ensures
            match pid_record(contents_view(pid_file)) {
                PidRecord::Missing => outcome == StopOutcome::NotRunning,
                PidRecord::Invalid => outcome == StopOutcome::InvalidPid,
                PidRecord::Recorded(pid) => outcome == StopOutcome::Stopped(pid) || outcome
                    == StopOutcome::SignalFailed(pid) || outcome == StopOutcome::NoProcess(pid),
            },
    {
        let record = read_pid_record(pid_file);
        match record {
            PidRecord::Recorded(pid) => {
                let sent = terminate_process(pid);
                Self::stop_with(record, sent)
            },
            _ => Self::stop_with(record, None),
        }
    }
}

/// The daemon that wrote its PID file is reported as running while its
/// process exists, and as not running once the process is gone. Without a
/// PID file it is reported as not running, and that is no error.
pub proof fn lemma_status_follows_the_process(pid: u32)
    ensures
        status_of(pid_record(Some(pid::pid_file_text(pid))), true) == DaemonStatus::Running(pid),
        !status_of(pid_record(Some(pid::pid_file_text(pid))), false).running(),
        forall|alive: bool| #[trigger] status_of(pid_record(None), alive) == DaemonStatus::NotRunning,
{
    pid::lemma_pid_file_round_trip(pid);
}

/// A request that fits the daemon's buffer arrives as it was sent: the
/// daemon decodes the client's bytes to the same request and dispatches it
/// under the rules in force.
pub proof fn lemma_request_reaches_dispatch(action: DispatchAction, rules: Seq<CommandRule>)
    requires
        wire_encoding(action).len() <= REQUEST_BUFFER_SIZE,
    ensures
        handling_of(wire_encoding(action), rules) == Handling::Dispatched(
            action,
            dispatch_of(action, rules),
        ),
{
    let data = wire_encoding(action);
    assert(data + Seq::<u8>::empty() =~= data);
    if let DispatchAction::Play(command) = action {
        assert(vstd::utf8::encode_utf8(command).len() <= data.len());
    }
    lemma_decoding_inverts_encoding(action, Seq::<u8>::empty());
}

/// A failed load of the configuration changes nothing in what the daemon
/// does for a request.
pub proof fn lemma_failed_reload_keeps_dispatch(
    rules: Seq<CommandRule>,
    update: Option<Seq<CommandRule>>,
    base: Seq<char>,
    data: Seq<u8>,
)
    requires
        update matches Some(new_rules) ==> !loadable(new_rules),
    ensures
        handling_of(data, reloaded(rules, update, base)) == handling_of(data, rules),
{
}

/// Once the socket is bound, nothing that happens at it ends the accept
/// loop.
pub proof fn lemma_accept_loop_goes_on(event: ServerEvent, rules: Seq<CommandRule>)
    requires
        event is Accepted || event is AcceptFailed,
    ensures
        !(server_plan(event, rules) is Exit),
{
}

} // verus!
