use ftr::{Cmd, Reply, StatusCode};

#[test]
fn status_codes_and_texts() {
    assert_eq!(StatusCode::ServiceReady.code(), 220);
    assert_eq!(StatusCode::ServiceReady.message(), "Service Ready.");
    assert_eq!(StatusCode::BadSequence.code(), 503);
    assert_eq!(StatusCode::NotLoggedIn.code(), 530);
    assert_eq!(StatusCode::ConfProtectedReply.code(), 633);
    assert_eq!(StatusCode::RestartMarker.code(), 110);
    assert_eq!(StatusCode::CantOpenDataConn.message(), "Can't open data connection.");
}

#[test]
fn reply_line_is_code_space_text() {
    assert_eq!(Reply::of(StatusCode::ServiceReady).line(), "220 Service Ready.");
    assert_eq!(
        Reply::of(StatusCode::UsernameOk).line(),
        "331 Username okay, need password."
    );
}

#[test]
fn command_tokens_parse_in_any_case() {
    assert_eq!(Cmd::parse("USER"), Some(Cmd::User));
    assert_eq!(Cmd::parse("user"), Some(Cmd::User));
    assert_eq!(Cmd::parse("rEtR"), Some(Cmd::Retrieve));
    assert_eq!(Cmd::parse("XPWD"), Some(Cmd::PrintCurDir));
    assert_eq!(Cmd::parse("CWD"), Some(Cmd::ChangeDir));
    assert_eq!(Cmd::parse("xcwd"), Some(Cmd::ChangeTheDir));
    assert_eq!(Cmd::ChangeTheDir.token(), "XCWD");
    assert_eq!(Cmd::parse("FOO"), None);
    assert_eq!(Cmd::parse(""), None);
    assert_eq!(Cmd::parse("USERS"), None);
    assert_eq!(Cmd::Retrieve.token(), "RETR");
    assert_eq!(Cmd::SendTerm.token(), "XSEN");
}
