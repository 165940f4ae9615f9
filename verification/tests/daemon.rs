use termsfx::client::play;
use termsfx::config::termsfx_config::TermsfxConfig;
use termsfx::config::termsfx_config_loader::TermsfxConfigLoader;
use termsfx::config::termsfx_config_source::{TermsfxCommandConfigSource, TermsfxConfigSource};
use termsfx::daemon::daemon_action::DaemonAction;
use termsfx::daemon::pid::{decimal_text, parse_pid};
use termsfx::daemon::wire::DecodeError;
use termsfx::daemon::{
    handle_client, process_event, read_pid_record, ClientOutcome, Daemon, DaemonStatus, Dispatch,
    PidRecord, ServerEvent, ServerStep, StartStage, StartStep, StopOutcome, ACCEPT_DELAY_MILLIS,
    DAEMON_PID_FILE_PATH, DAEMON_SOCK_FILE_PATH, DAEMON_STDERR_FILE_PATH, DAEMON_STDOUT_FILE_PATH,
    REQUEST_BUFFER_SIZE,
};

fn rule(command: &str, path: &str) -> TermsfxCommandConfigSource {
    TermsfxCommandConfigSource {
        command: command.to_string(),
        audio_file_path: Some(path.to_string()),
        audio_file_paths: None,
    }
}

fn two_rules() -> TermsfxConfigSource {
    TermsfxConfigSource { commands: vec![rule("ls", "/s/A.wav"), rule("l.*", "/s/B.wav")] }
}

fn config() -> TermsfxConfig {
    TermsfxConfig::try_from_source(two_rules(), "/home/u/.config/termsfx").unwrap()
}

fn daemon() -> Daemon {
    let mut daemon = Daemon::new(TermsfxConfigLoader::with_home("/home/u"));
    daemon.watch(Some(two_rules())).unwrap();
    daemon
}

#[test]
fn fixed_paths() {
    assert_eq!(DAEMON_STDOUT_FILE_PATH, "/tmp/termsfx_daemon.out");
    assert_eq!(DAEMON_STDERR_FILE_PATH, "/tmp/termsfx_daemon.err");
    assert_eq!(DAEMON_PID_FILE_PATH, "/tmp/termsfx_daemon.pid");
    assert_eq!(DAEMON_SOCK_FILE_PATH, "/tmp/termsfx_daemon.sock");
    assert_eq!(REQUEST_BUFFER_SIZE, 1024);
    assert!(ACCEPT_DELAY_MILLIS < 200);
}

#[test]
fn a_pid_file_as_the_daemon_writes_it() {
    assert_eq!(parse_pid("4711\n"), Some(4711));
    assert_eq!(parse_pid("1\n"), Some(1));
    assert_eq!(parse_pid("0\n"), Some(0));
}

#[test]
fn white_space_around_a_pid_is_ignored() {
    assert_eq!(parse_pid("  42\t\r\n"), Some(42));
    assert_eq!(parse_pid("\u{2003}42\u{3000}"), Some(42));
    assert_eq!(parse_pid("42"), Some(42));
}

#[test]
fn a_pid_may_have_a_plus_and_leading_zeros() {
    assert_eq!(parse_pid("+42"), Some(42));
    assert_eq!(parse_pid("00042"), Some(42));
    assert_eq!(parse_pid("+0"), Some(0));
}

#[test]
fn a_pid_fits_in_32_bits() {
    assert_eq!(parse_pid("4294967295"), Some(u32::MAX));
    assert_eq!(parse_pid("4294967296"), None);
    assert_eq!(parse_pid("99999999999999999999999999"), None);
    assert_eq!(parse_pid("000000000000000000000000001"), Some(1));
}

#[test]
fn what_is_no_number_is_no_pid() {
    for text in ["", " ", "\n", "+", "-", "-1", "++1", "1 2", "12a", "a12", "1.5", "0x10", "１２"] {
        assert_eq!(parse_pid(text), None, "{:?}", text);
    }
}

#[test]
fn parse_pid_reads_as_std_does() {
    let samples = [
        "", "0", "7", "+7", "-7", " 7 ", "\t7\n", "7\u{a0}", "\u{85}7", "\u{200b}7", "07", "7 7",
        "4294967295", "4294967296", "42949672950", "+", " + ", "+ 7", "٣", "7\u{feff}", "\u{1680}9",
        "\u{2028}10\u{2029}", "\u{202f}11\u{205f}", "\u{180e}12", "12\u{0}", "\u{b}13\u{c}",
    ];
    for text in samples {
        assert_eq!(parse_pid(text), text.trim().parse::<u32>().ok(), "{:?}", text);
    }
}

#[test]
fn decimal_text_writes_as_std_does() {
    for n in [0u32, 1, 9, 10, 11, 99, 100, 101, 4711, 65535, 1000000, 4294967294, u32::MAX] {
        assert_eq!(decimal_text(n), n.to_string());
        assert_eq!(parse_pid(&format!("{}\n", decimal_text(n))), Some(n));
    }
}

#[test]
fn the_pid_record() {
    assert_eq!(read_pid_record(None), PidRecord::Missing);
    assert_eq!(read_pid_record(Some("")), PidRecord::Invalid);
    assert_eq!(read_pid_record(Some("daemon")), PidRecord::Invalid);
    assert_eq!(read_pid_record(Some("4711\n")), PidRecord::Recorded(4711));
}

#[test]
fn status_without_a_pid_file_is_not_running() {
    let status = Daemon::status(None);
    assert_eq!(status, DaemonStatus::NotRunning);
    assert!(!status.is_running());
    assert!(!status.is_error());
    assert_eq!(status.message(), "Daemon is not running");
}

#[test]
fn status_with_an_invalid_pid_file() {
    let status = Daemon::status(Some("not a pid"));
    assert_eq!(status, DaemonStatus::InvalidPid);
    assert!(!status.is_running());
    assert!(status.is_error());
    assert_eq!(status.message(), "Invalid PID in /tmp/termsfx_daemon.pid");
}

#[test]
fn status_of_a_process_that_does_not_exist() {
    let status = Daemon::status(Some("4000000000\n"));
    assert_eq!(status, DaemonStatus::Stale(4000000000));
    assert!(!status.is_running());
    assert_eq!(status.message(), "Daemon PID file found but process is not running");
}

#[test]
fn status_of_a_recorded_process() {
    let status = Daemon::status(Some("1\n"));
    assert!(status == DaemonStatus::Running(1) || status == DaemonStatus::Stale(1));
}

#[test]
fn status_follows_the_process() {
    let record = read_pid_record(Some("4711\n"));
    let running = Daemon::status_with(record, true);
    assert_eq!(running, DaemonStatus::Running(4711));
    assert!(running.is_running());
    assert!(!running.is_error());
    assert_eq!(running.message(), "Daemon is running with PID 4711");
    let stopped = Daemon::status_with(record, false);
    assert_eq!(stopped, DaemonStatus::Stale(4711));
    assert!(!stopped.is_running());
    assert_eq!(Daemon::status_with(PidRecord::Missing, true), DaemonStatus::NotRunning);
    assert_eq!(Daemon::status_with(PidRecord::Invalid, true), DaemonStatus::InvalidPid);
}

#[test]
fn stop_without_a_pid_file() {
    let outcome = Daemon::stop(None);
    assert_eq!(outcome, StopOutcome::NotRunning);
    assert!(outcome.is_error());
    assert_eq!(outcome.message(), "Daemon is not running or PID file not found");
}

#[test]
fn stop_with_an_invalid_pid_file() {
    let outcome = Daemon::stop(Some("12 monkeys"));
    assert_eq!(outcome, StopOutcome::InvalidPid);
    assert_eq!(outcome.message(), "Invalid PID in /tmp/termsfx_daemon.pid");
}

#[test]
fn stop_of_a_process_that_does_not_exist() {
    let outcome = Daemon::stop(Some("4000000000\n"));
    assert_eq!(outcome, StopOutcome::NoProcess(4000000000));
    assert!(outcome.is_error());
    assert_eq!(outcome.message(), "No process found with PID 4000000000");
}

#[test]
fn stop_reports_the_delivery_of_the_signal() {
    let record = PidRecord::Recorded(4711);
    let outcome = Daemon::stop_with(record, Some(Some(true)));
    assert_eq!(outcome, StopOutcome::Stopped(4711));
    assert!(!outcome.is_error());
    assert_eq!(outcome.message(), "Daemon stopped successfully");
    let outcome = Daemon::stop_with(record, Some(Some(false)));
    assert_eq!(outcome, StopOutcome::SignalFailed(4711));
    assert_eq!(outcome.message(), "Failed to stop daemon");
    assert_eq!(Daemon::stop_with(record, Some(None)), StopOutcome::SignalFailed(4711));
    assert_eq!(Daemon::stop_with(record, None), StopOutcome::NoProcess(4711));
    assert_eq!(Daemon::stop_with(PidRecord::Missing, Some(Some(true))), StopOutcome::NotRunning);
    assert_eq!(Daemon::stop_with(PidRecord::Invalid, Some(Some(true))), StopOutcome::InvalidPid);
}

#[test]
fn restart_stops_and_then_starts_whatever_came_of_the_stop() {
    assert_eq!(Daemon::restart(None), (StopOutcome::NotRunning, StartStage::StdoutLog));
    assert_eq!(Daemon::restart(Some("?")), (StopOutcome::InvalidPid, StartStage::StdoutLog));
    assert_eq!(
        Daemon::restart(Some("4000000000")),
        (StopOutcome::NoProcess(4000000000), StartStage::StdoutLog)
    );
}

#[test]
fn the_stages_of_a_start() {
    let mut stage = Daemon::start();
    let mut seen = vec![stage];
    loop {
        match Daemon::start_step(stage, None) {
            StartStep::Proceed(next) => {
                stage = next;
                seen.push(next);
            }
            StartStep::Serve => break,
            StartStep::Abort(message, _) => panic!("{}", message),
        }
    }
    assert_eq!(
        seen,
        vec![
            StartStage::StdoutLog,
            StartStage::StderrLog,
            StartStage::Detach,
            StartStage::Audio,
            StartStage::Config
        ]
    );
}

#[test]
fn a_failed_stage_aborts_the_start() {
    assert_eq!(
        Daemon::start_step(StartStage::StdoutLog, Some("denied")),
        StartStep::Abort("Failed to create stdout log file: denied".to_string(), 1)
    );
    assert_eq!(
        Daemon::start_step(StartStage::StderrLog, Some("denied")),
        StartStep::Abort("Failed to create stderr log file: denied".to_string(), 1)
    );
    assert_eq!(
        Daemon::start_step(StartStage::Detach, Some("fork")),
        StartStep::Abort("Error, daemonization failed: fork".to_string(), 0)
    );
    assert_eq!(
        Daemon::start_step(StartStage::Audio, Some("no device")),
        StartStep::Abort("Failed to initialize audio output: no device".to_string(), 1)
    );
    assert_eq!(
        Daemon::start_step(StartStage::Config, Some("Invalid config: command must be provided")),
        StartStep::Abort(
            "Failed to load configuration: Invalid config: command must be provided".to_string(),
            1
        )
    );
}

#[test]
fn the_accept_loop() {
    let daemon = daemon();
    assert!(matches!(daemon.run(ServerEvent::Started), ServerStep::Bind));
    assert!(matches!(daemon.run(ServerEvent::Bound), ServerStep::Listen));
    assert!(matches!(daemon.run(ServerEvent::BindFailed), ServerStep::Exit));
    assert!(matches!(daemon.run(ServerEvent::AcceptFailed), ServerStep::Retry));
    match daemon.run(ServerEvent::Accepted) {
        ServerStep::Serve(snapshot) => assert_eq!(snapshot.playlist("ls").len(), 2),
        other => panic!("expected a connection to be served, got {:?}", other),
    }
}

#[test]
fn a_connection_is_served_with_the_rules_in_force() {
    let mut daemon = daemon();
    let update = TermsfxConfigSource { commands: vec![rule("cd", "/s/C.wav")] };
    daemon.reload(Some(update)).unwrap();
    match daemon.run(ServerEvent::Accepted) {
        ServerStep::Serve(snapshot) => {
            assert!(snapshot.playlist("ls").is_empty());
            assert_eq!(snapshot.playlist("cd"), vec!["/s/C.wav".to_string()]);
        }
        other => panic!("expected a connection to be served, got {:?}", other),
    }
    assert!(daemon.reload(None).is_err());
    assert_eq!(daemon.config_loader().config().playlist("cd").len(), 1);
}

#[test]
fn play_fires_every_matching_rule() {
    let dispatch = process_event(&DaemonAction::Play("ls".to_string()), &config());
    assert_eq!(dispatch, Dispatch::Play(vec!["/s/A.wav".to_string(), "/s/B.wav".to_string()]));
    let dispatch = process_event(&DaemonAction::Play("ln".to_string()), &config());
    assert_eq!(dispatch, Dispatch::Play(vec!["/s/B.wav".to_string()]));
    let dispatch = process_event(&DaemonAction::Play("cd".to_string()), &config());
    assert_eq!(dispatch, Dispatch::Play(vec![]));
}

#[test]
fn print_config_is_not_served() {
    assert_eq!(process_event(&DaemonAction::PrintConfig, &config()), Dispatch::Unsupported);
}

#[test]
fn a_request_of_the_client_is_dispatched() {
    let outcome = handle_client(&play(&"ls -la".to_string()), &config());
    assert_eq!(
        outcome,
        ClientOutcome::Dispatched(
            DaemonAction::Play("ls -la".to_string()),
            Dispatch::Play(vec!["/s/A.wav".to_string(), "/s/B.wav".to_string()])
        )
    );
    let outcome = handle_client(&termsfx::client::print_config(), &config());
    assert_eq!(outcome, ClientOutcome::Dispatched(DaemonAction::PrintConfig, Dispatch::Unsupported));
}

#[test]
fn a_connection_without_data_is_a_client_that_left() {
    assert_eq!(handle_client(&[], &config()), ClientOutcome::Disconnected);
}

#[test]
fn what_is_no_request_is_dropped() {
    assert_eq!(handle_client(&[7], &config()), ClientOutcome::Malformed(DecodeError::Truncated));
    assert_eq!(
        handle_client(&[7, 0, 0, 0], &config()),
        ClientOutcome::Malformed(DecodeError::UnknownAction(7))
    );
    assert_eq!(
        handle_client(&[0, 0, 0, 0, 1, 0, 0, 0, 0, 0, 0, 0, 0xFF], &config()),
        ClientOutcome::Malformed(DecodeError::InvalidText)
    );
}

#[test]
fn a_request_is_read_up_to_the_size_of_the_buffer() {
    let fits = play(&"l".repeat(REQUEST_BUFFER_SIZE - 12));
    assert!(matches!(handle_client(&fits, &config()), ClientOutcome::Dispatched(_, _)));
    let too_long = play(&"l".repeat(REQUEST_BUFFER_SIZE - 11));
    assert_eq!(
        handle_client(&too_long, &config()),
        ClientOutcome::Malformed(DecodeError::Truncated)
    );
    let mut padded = play(&"ls".to_string());
    padded.resize(4 * REQUEST_BUFFER_SIZE, 0);
    assert!(matches!(handle_client(&padded, &config()), ClientOutcome::Dispatched(_, _)));
}
