use ftr::{
    Action, AuthState, Cmd, Conf, DataMode, HostPort, Reply, Session, SessionIds, Sessions,
    StatusCode, TransferKind, TransferOutcome, TransferType,
};

fn conf() -> Conf {
    let mut c = Conf::new();
    let r = c.load(
        "server = localhost\nport = 2121\nroot = /srv/ftp\n\
         user {\nusername = jt\npassword = test\nroot = /jt\n}\n",
    );
    assert!(r.is_ok());
    c
}

fn reply_of(a: Action) -> Reply {
    match a {
        Action::Reply(r) => r,
        _ => panic!("expected a plain reply"),
    }
}

fn logged_in(c: &Conf) -> Session {
    let mut s = Session::new(1);
    reply_of(s.handle_line("USER jt", c));
    let r = reply_of(s.handle_line("PASS test", c));
    assert_eq!(r.code, StatusCode::UserLoggedIn);
    s
}

fn local(port: u16) -> HostPort {
    HostPort { h1: 127, h2: 0, h3: 0, h4: 1, port }
}

#[test]
fn end_to_end_session() {
    let c = conf();
    let mut s = Session::new(7);
    assert_eq!(s.start().line(), "220 Service Ready.");
    let r = reply_of(s.handle_line("USER jt\r\n", &c));
    assert_eq!(r.line(), "331 Username okay, need password.");
    let r = reply_of(s.handle_line("PASS test", &c));
    assert!(r.line().starts_with("230 User logged in"));
    let r = reply_of(s.handle_line("PWD", &c));
    assert!(r.line().starts_with("257 \"/\""));
    match s.handle_line("PASV", &c) {
        Action::OpenPassive(false) => {}
        _ => panic!("expected a passive listener to be opened"),
    }
    let r = s.listen_done(Some(local(50000)));
    assert_eq!(r.line(), "227 Entering passive mode. (127,0,0,1,195,80)");
    let job = match s.handle_line("LIST", &c) {
        Action::Transfer(job) => job,
        _ => panic!("expected a transfer"),
    };
    assert_eq!(job.kind, TransferKind::List);
    assert_eq!(job.path, "/srv/ftp/jt/");
    assert_eq!(job.mode, DataMode::Passive(local(50000)));
    assert_eq!(s.transfer_opening().code.code(), 150);
    assert_eq!(s.transfer_done(TransferOutcome::Completed).code.code(), 226);
    match s.handle_line("QUIT", &c) {
        Action::Close(r) => assert_eq!(r.code.code(), 221),
        _ => panic!("expected the session to close"),
    }
    assert!(s.is_closed());
}

#[test]
fn transfer_before_login_is_refused_without_change() {
    let c = conf();
    for line in ["RETR a.txt", "STOR a.txt", "STOU", "APPE a", "LIST", "NLST", "MLSD"] {
        let mut s = Session::new(3);
        let r = reply_of(s.handle_line(line, &c));
        assert_eq!(r.code, StatusCode::NotLoggedIn);
        assert_eq!(r.line(), "530 Not logged in.");
        assert_eq!(s.auth(), AuthState::Unauthenticated);
        assert_eq!(s.data_mode(), DataMode::NoMode);
        assert_eq!(s.cwd_text(), "/");
    }
    let mut s = Session::new(4);
    reply_of(s.handle_line("USER jt", &c));
    let r = reply_of(s.handle_line("RETR x", &c));
    assert_eq!(r.code, StatusCode::NotLoggedIn);
    assert_eq!(s.auth(), AuthState::UsernameGiven);
    assert_eq!(s.username(), "jt");
}

#[test]
fn wrong_password_is_refused() {
    let c = conf();
    let mut s = Session::new(1);
    reply_of(s.handle_line("USER jt", &c));
    let r = reply_of(s.handle_line("PASS nope", &c));
    assert_eq!(r.code.code(), 430);
    assert_eq!(s.auth(), AuthState::Unauthenticated);
    let r = reply_of(s.handle_line("PASS test", &c));
    assert_eq!(r.code, StatusCode::BadSequence);
}

#[test]
fn rnto_without_rnfr_is_bad_sequence() {
    let c = conf();
    let mut s = Session::new(1);
    assert_eq!(reply_of(s.handle_line("RNTO b", &c)).code.code(), 503);
    let mut s = logged_in(&c);
    assert_eq!(reply_of(s.handle_line("RNTO b", &c)).code.code(), 503);
    assert_eq!(reply_of(s.handle_line("RNFR a", &c)).code.code(), 350);
    assert!(s.has_rename_source());
    assert_eq!(reply_of(s.handle_line("NOOP", &c)).code.code(), 200);
    assert!(!s.has_rename_source());
    assert_eq!(reply_of(s.handle_line("RNTO b", &c)).code.code(), 503);
    reply_of(s.handle_line("RNFR a", &c));
    match s.handle_line("RNTO b", &c) {
        Action::Rename(from, to) => {
            assert_eq!(from, "/srv/ftp/jt/a");
            assert_eq!(to, "/srv/ftp/jt/b");
        }
        _ => panic!("expected a rename"),
    }
    assert_eq!(s.rename_done(true).code.code(), 250);
    assert_eq!(reply_of(s.handle_line("RNTO b", &c)).code.code(), 503);
}

#[test]
fn passive_retrieve_without_connection_releases_listener() {
    let c = conf();
    let mut s = logged_in(&c);
    assert!(matches!(s.handle_line("PASV", &c), Action::OpenPassive(false)));
    s.listen_done(Some(local(40000)));
    assert_eq!(s.data_mode(), DataMode::Passive(local(40000)));
    assert!(matches!(s.handle_line("RETR file.bin", &c), Action::Transfer(_)));
    let r = s.transfer_done(TransferOutcome::NoConnection);
    assert_eq!(r.line(), "425 Can't open data connection.");
    assert_eq!(s.data_mode(), DataMode::NoMode);
    let r = reply_of(s.handle_line("RETR file.bin", &c));
    assert_eq!(r.code, StatusCode::BadSequence);
}

#[test]
fn session_ids_strictly_increase() {
    let mut ids = SessionIds::new();
    let mut last = 0usize;
    for _ in 0..100 {
        let id = ids.next_id().unwrap();
        assert!(id > last);
        last = id;
    }
    assert_eq!(last, 100);
}

#[test]
fn generate_next_session_id() {
    let mut ids = SessionIds::new();
    assert_eq!(ids.next_id(), Some(1));
    assert_eq!(ids.next_id(), Some(2));
}

#[test]
fn cwd_never_leaves_root() {
    let c = conf();
    let mut s = logged_in(&c);
    let r = reply_of(s.handle_line("CWD ..", &c));
    assert_eq!(r.code, StatusCode::FileNotFound);
    assert_eq!(s.cwd_text(), "/");
    let r = reply_of(s.handle_line("CDUP", &c));
    assert_eq!(r.code.code(), 550);
    match s.handle_line("CWD pub/docs", &c) {
        Action::ChangeDir(p) => assert_eq!(p, "/srv/ftp/jt/pub/docs"),
        _ => panic!("expected a directory check"),
    }
    assert_eq!(s.change_dir_done(true).code.code(), 250);
    assert_eq!(s.cwd_text(), "/pub/docs");
    let r = reply_of(s.handle_line("CWD ../../../etc", &c));
    assert_eq!(r.code.code(), 550);
    assert_eq!(s.cwd_text(), "/pub/docs");
    let r = reply_of(s.handle_line("CWD /a/../../b", &c));
    assert_eq!(r.code.code(), 550);
    assert_eq!(s.cwd_text(), "/pub/docs");
    match s.handle_line("CWD ../x/./y", &c) {
        Action::ChangeDir(p) => assert_eq!(p, "/srv/ftp/jt/pub/x/y"),
        _ => panic!("expected a directory check"),
    }
    assert_eq!(s.change_dir_done(false).code.code(), 550);
    assert_eq!(s.cwd_text(), "/pub/docs");
    match s.handle_line("XCWD ..", &c) {
        Action::ChangeDir(p) => assert_eq!(p, "/srv/ftp/jt/pub"),
        _ => panic!("expected a directory check"),
    }
    assert_eq!(s.change_dir_done(true).code.code(), 250);
    assert_eq!(s.cwd_text(), "/pub");
    let r = reply_of(s.handle_line("XCWD ../..", &c));
    assert_eq!(r.code.code(), 550);
    assert_eq!(s.cwd_text(), "/pub");
    let r = reply_of(s.handle_line("PWD", &c));
    assert_eq!(r.line(), "257 \"/pub\" is the current directory.");
}

#[test]
fn shutdown_reaches_every_session() {
    let mut sessions = Sessions::new();
    let mut ids = SessionIds::new();
    for _ in 0..3 {
        let id = ids.next_id().unwrap();
        sessions.add_session(Session::new(id));
    }
    assert_eq!(sessions.len(), 3);
    let mut ids = sessions.ids();
    ids.sort();
    assert_eq!(ids, vec![1, 2, 3]);
    for id in ids {
        let s = sessions.get_session_mut(id).unwrap();
        let r = s.end();
        assert_eq!(r.line(), "421 Service not available, closing control connection.");
    }
    for id in 1..4usize {
        assert!(sessions.get_session(id).unwrap().is_closed());
        assert!(sessions.remove_session(id).is_some());
    }
    assert_eq!(sessions.len(), 0);
    assert!(sessions.get_session(1).is_none());
    assert!(sessions.get_session_mut(9).is_none());
}

#[test]
fn data_connection_arguments() {
    let c = conf();
    let mut s = logged_in(&c);
    assert_eq!(reply_of(s.handle_line("PORT 127,0,0,1,31,144", &c)).code.code(), 200);
    assert_eq!(s.data_mode(), DataMode::Active(local(8080)));
    assert_eq!(reply_of(s.handle_line("PORT 1,2,3", &c)).code.code(), 501);
    assert_eq!(reply_of(s.handle_line("PORT 1,2,3,256,0,1", &c)).code.code(), 501);
    assert_eq!(reply_of(s.handle_line("EPRT |1|132.235.1.2|6275|", &c)).code.code(), 200);
    assert_eq!(
        s.data_mode(),
        DataMode::Active(HostPort { h1: 132, h2: 235, h3: 1, h4: 2, port: 6275 })
    );
    assert_eq!(reply_of(s.handle_line("EPRT |2|::1|6275|", &c)).code.code(), 522);
    assert_eq!(reply_of(s.handle_line("EPRT |1|1.2.3|6275|", &c)).code.code(), 501);
    assert!(matches!(s.handle_line("EPSV", &c), Action::OpenPassive(true)));
    assert_eq!(s.listen_done(Some(local(6000))).line(), "229 Entering extended passive mode. (|||6000|)");
    assert!(matches!(s.handle_line("PASV", &c), Action::OpenPassive(false)));
    assert_eq!(s.listen_done(None).code.code(), 425);
    assert_eq!(s.data_mode(), DataMode::NoMode);
}

#[test]
fn settings_and_housekeeping() {
    let c = conf();
    let mut s = logged_in(&c);
    assert_eq!(reply_of(s.handle_line("TYPE I", &c)).code.code(), 200);
    assert_eq!(s.transfer_type(), TransferType::Binary);
    assert_eq!(reply_of(s.handle_line("type a", &c)).code.code(), 200);
    assert_eq!(s.transfer_type(), TransferType::Ascii);
    assert_eq!(reply_of(s.handle_line("TYPE X", &c)).code.code(), 504);
    assert_eq!(reply_of(s.handle_line("TYPE", &c)).code.code(), 501);
    assert_eq!(reply_of(s.handle_line("MODE S", &c)).code.code(), 200);
    assert_eq!(reply_of(s.handle_line("MODE B", &c)).code.code(), 504);
    assert_eq!(reply_of(s.handle_line("STRU F", &c)).code.code(), 200);
    assert_eq!(reply_of(s.handle_line("SYST", &c)).line(), "215 UNIX Type: L8");
    assert_eq!(reply_of(s.handle_line("FOO bar", &c)).code.code(), 502);
    assert_eq!(reply_of(s.handle_line("DELE x", &c)).code.code(), 502);
    let long = "NOOP ".to_string() + &"x".repeat(600);
    assert_eq!(reply_of(s.handle_line(&long, &c)).code.code(), 501);
    assert_eq!(reply_of(s.handle_line("USER", &c)).code.code(), 501);
}

#[test]
fn transfer_outcomes() {
    let c = conf();
    let outcomes = [
        (TransferOutcome::Completed, 226),
        (TransferOutcome::LocalError, 451),
        (TransferOutcome::FileError, 550),
        (TransferOutcome::Aborted, 426),
        (TransferOutcome::NoConnection, 425),
    ];
    for (o, code) in outcomes {
        let mut s = logged_in(&c);
        s.handle_line("PORT 10,0,0,2,4,1", &c);
        match s.handle_line("STOR up.txt", &c) {
            Action::Transfer(job) => {
                assert_eq!(job.kind, TransferKind::Store);
                assert_eq!(job.path, "/srv/ftp/jt/up.txt");
                assert_eq!(job.mode, DataMode::Active(HostPort { h1: 10, h2: 0, h3: 0, h4: 2, port: 1025 }));
            }
            _ => panic!("expected a transfer"),
        }
        assert_eq!(s.transfer_done(o).code.code(), code);
        assert_eq!(s.data_mode(), DataMode::NoMode);
    }
    let mut s = logged_in(&c);
    s.handle_line("PORT 10,0,0,2,4,1", &c);
    assert_eq!(reply_of(s.handle_line("RETR", &c)).code.code(), 501);
    assert_eq!(s.transfer_done(TransferOutcome::Completed).code.code(), 503);
    let _ = Cmd::Abort;
}
