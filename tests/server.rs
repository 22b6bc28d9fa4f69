use ftr::{
    after_accept_error, bind_address, log_line, parse_opts, run_paths, signal_trigger, AcceptStep,
    CliOutcome, ServerError, ServerSignal, Trigger,
};

fn args(v: &[&str]) -> Vec<String> {
    v.iter().map(|s| s.to_string()).collect()
}

#[test]
fn bind_address_joins_host_and_port() {
    assert_eq!(bind_address("localhost", 9090), "localhost:9090");
    assert_eq!(bind_address("::1", 0), "::1:0");
    assert_eq!(bind_address("h", -21), "h:-21");
}

#[test]
fn accept_errors() {
    assert_eq!(after_accept_error(false, true), AcceptStep::Retry);
    assert_eq!(after_accept_error(false, false), AcceptStep::Fail);
    assert_eq!(after_accept_error(true, true), AcceptStep::Stop);
}

#[test]
fn signals() {
    assert_eq!(signal_trigger(ServerSignal::Terminate), Trigger::Shutdown);
    assert_eq!(signal_trigger(ServerSignal::Interrupt), Trigger::Shutdown);
    assert_eq!(signal_trigger(ServerSignal::Quit), Trigger::Shutdown);
    assert_eq!(signal_trigger(ServerSignal::HangUp), Trigger::Reload);
}

#[test]
fn log_lines() {
    assert_eq!(log_line("2024/01/02 03:04:05", "started"), "[2024/01/02 03:04:05] started\n");
}

#[test]
fn server_error_messages() {
    assert_eq!(ServerError::ResponseFailed.message(), "could not send the response");
    assert_eq!(
        ServerError::BindFailed(std::io::ErrorKind::AddrInUse).message(),
        "could not bind the resolved address: address in use"
    );
}

#[test]
fn command_line() {
    match parse_opts(&args(&["-p", "/opt/ftr", "--c", "a.conf", "-d"])) {
        CliOutcome::Run(o) => {
            assert_eq!(o.prefix_path, "/opt/ftr");
            assert_eq!(o.conf_file, "a.conf");
            assert!(o.run_daemon);
            let (prefix, conf) = run_paths(&o);
            assert_eq!(prefix, "/opt/ftr/");
            assert_eq!(conf, "a.conf");
        }
        _ => panic!("expected a run"),
    }
    match parse_opts(&args(&[])) {
        CliOutcome::Run(o) => {
            let (prefix, conf) = run_paths(&o);
            assert_eq!(prefix, "/home/jonathan/dev/ftrd/");
            assert_eq!(conf, "/home/jonathan/dev/ftrd/ftrd.conf");
        }
        _ => panic!("expected a run"),
    }
    assert!(matches!(parse_opts(&args(&["-d", "-h"])), CliOutcome::Usage));
    assert!(matches!(parse_opts(&args(&["-v"])), CliOutcome::Version));
    assert!(matches!(parse_opts(&args(&["-t", "bogus"])), CliOutcome::TestConf));
    match parse_opts(&args(&["bogus", "-h"])) {
        CliOutcome::Unknown(a) => assert_eq!(a, "bogus"),
        _ => panic!("expected a refusal"),
    }
}

#[test]
fn data_connection_wait_is_bounded() {
    assert!(ftr::wait_for_data(0, ftr::DATA_TIMEOUT_MS, false));
    assert!(ftr::wait_for_data(29999, 30000, false));
    assert!(!ftr::wait_for_data(30000, 30000, false));
    assert!(!ftr::wait_for_data(10, 30000, true));
}
