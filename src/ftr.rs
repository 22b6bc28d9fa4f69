//! The protocol's vocabulary: reply codes with their texts, and command
//! tokens.

use vstd::prelude::*;

use crate::text::chars_of;

verus! {

/// A reply code of the protocol.
#[derive(Debug, Clone, Copy, PartialEq, Eq, Structural)]
pub enum StatusCode {
    RestartMarker,
    ReadyInAFew,
    DataConnAlreadyOpen,
    FileStatusOk,
    OK,
    NotImplemented,
    SystemStatus,
    DirStatus,
    FileStatus,
    HelpMessage,
    NameSystem,
    ServiceReady,
    ClosingControlConn,
    DataConnOpen,
    ClosingDataConn,
    EnterPassMode,
    EnterLongPassMode,
    EnterExtPassMode,
    UserLoggedIn,
    UserLoggedOut,
    LogoutCmdNoted,
    AuthAccepted,
    RequestedFileOk,
    PathCreated,
    UsernameOk,
    NeedAccount,
    RequestedFileAction,
    CmdNotAccepted,
    ServiceNotAvailable,
    CantOpenDataConn,
    ConnClosed,
    InvalidUsername,
    HostUnavailable,
    FileActionNotTaken,
    ActionAborted,
    ActionNotTaken,
    UnknownError,
    SyntaxError,
    CmdNotImplemented,
    BadSequence,
    CmdNotImplementedForParam,
    ExtPortUnknownProtocol,
    NotLoggedIn,
    NeedAccountForStoring,
    CouldNotConnToServer,
    FileNotFound,
    RequestedActionAborted,
    RequestedFileActionAborted,
    RequestedActionNotTaken,
    IntegrityProtectedReply,
    ConfAndIntegrityProtectedReply,
    ConfProtectedReply,
}

/// The number of a reply code.
pub open spec fn code_of(s: StatusCode) -> i32 {
    match s {
        StatusCode::RestartMarker => 110,
        StatusCode::ReadyInAFew => 120,
        StatusCode::DataConnAlreadyOpen => 125,
        StatusCode::FileStatusOk => 150,
        StatusCode::OK => 200,
        StatusCode::NotImplemented => 202,
        StatusCode::SystemStatus => 211,
        StatusCode::DirStatus => 212,
        StatusCode::FileStatus => 213,
        StatusCode::HelpMessage => 214,
        StatusCode::NameSystem => 215,
        StatusCode::ServiceReady => 220,
        StatusCode::ClosingControlConn => 221,
        StatusCode::DataConnOpen => 225,
        StatusCode::ClosingDataConn => 226,
        StatusCode::EnterPassMode => 227,
        StatusCode::EnterLongPassMode => 228,
        StatusCode::EnterExtPassMode => 229,
        StatusCode::UserLoggedIn => 230,
        StatusCode::UserLoggedOut => 231,
        StatusCode::LogoutCmdNoted => 232,
        StatusCode::AuthAccepted => 234,
        StatusCode::RequestedFileOk => 250,
        StatusCode::PathCreated => 257,
        StatusCode::UsernameOk => 331,
        StatusCode::NeedAccount => 332,
        StatusCode::RequestedFileAction => 350,
        StatusCode::CmdNotAccepted => 400,
        StatusCode::ServiceNotAvailable => 421,
        StatusCode::CantOpenDataConn => 425,
        StatusCode::ConnClosed => 426,
        StatusCode::InvalidUsername => 430,
        StatusCode::HostUnavailable => 434,
        StatusCode::FileActionNotTaken => 450,
        StatusCode::ActionAborted => 451,
        StatusCode::ActionNotTaken => 452,
        StatusCode::UnknownError => 500,
        StatusCode::SyntaxError => 501,
        StatusCode::CmdNotImplemented => 502,
        StatusCode::BadSequence => 503,
        StatusCode::CmdNotImplementedForParam => 504,
        StatusCode::ExtPortUnknownProtocol => 522,
        StatusCode::NotLoggedIn => 530,
        StatusCode::NeedAccountForStoring => 532,
        StatusCode::CouldNotConnToServer => 534,
        StatusCode::FileNotFound => 550,
        StatusCode::RequestedActionAborted => 551,
        StatusCode::RequestedFileActionAborted => 552,
        StatusCode::RequestedActionNotTaken => 553,
        StatusCode::IntegrityProtectedReply => 631,
        StatusCode::ConfAndIntegrityProtectedReply => 632,
        StatusCode::ConfProtectedReply => 633,
    }
}

/// The text that goes with a reply code.
pub open spec fn message_of(s: StatusCode) -> Seq<char> {
    match s {
        StatusCode::RestartMarker => "Restart marker replay."@,
        StatusCode::ReadyInAFew => "Service ready in a few minutes."@,
        StatusCode::DataConnAlreadyOpen => "Data connection already open."@,
        StatusCode::FileStatusOk => "File status okay, about to open data connection."@,
        StatusCode::OK => "Command Ok."@,
        StatusCode::NotImplemented => "Command not implemented."@,
        StatusCode::SystemStatus => "System Status."@,
        StatusCode::DirStatus => "Directory Status."@,
        StatusCode::FileStatus => "File Status."@,
        StatusCode::HelpMessage => "Help Message."@,
        StatusCode::NameSystem => "NAME system type."@,
        StatusCode::ServiceReady => "Service Ready."@,
        StatusCode::ClosingControlConn => "Closing control connection."@,
        StatusCode::DataConnOpen => "Data connection open, no transfer in progress."@,
        StatusCode::ClosingDataConn => "Closing data connection. File action ok."@,
        StatusCode::EnterPassMode => "Entering passive mode."@,
        StatusCode::EnterLongPassMode => "Entering long passive mode."@,
        StatusCode::EnterExtPassMode => "Entering extended passive mode."@,
        StatusCode::UserLoggedIn => "User logged in, proceed. Logged out if appropriate."@,
        StatusCode::UserLoggedOut => "User logged out, service terminated."@,
        StatusCode::LogoutCmdNoted => "Logout command noted."@,
        StatusCode::AuthAccepted => "Authentication mechanism accepted."@,
        StatusCode::RequestedFileOk => "Requested file action ok, completed."@,
        StatusCode::PathCreated => "Path created."@,
        StatusCode::UsernameOk => "Username okay, need password."@,
        StatusCode::NeedAccount => "Need account for login."@,
        StatusCode::RequestedFileAction => "Requested file action pending more information."@,
        StatusCode::CmdNotAccepted => "Command not accepted, please try again."@,
        StatusCode::ServiceNotAvailable => "Service not available, closing control connection."@,
        StatusCode::CantOpenDataConn => "Can't open data connection."@,
        StatusCode::ConnClosed => "Connection closed, transfer aborted."@,
        StatusCode::InvalidUsername => "Invalid username or password."@,
        StatusCode::HostUnavailable => "Requested host unavailable."@,
        StatusCode::FileActionNotTaken => "Requested file action not taken."@,
        StatusCode::ActionAborted => "Requested action aborted. Local error in processing."@,
        StatusCode::ActionNotTaken => "Requested action not taken. Insufficient storage space in system."@,
        StatusCode::UnknownError => "Unknown error."@,
        StatusCode::SyntaxError => "Syntax error in parameters or arguments."@,
        StatusCode::CmdNotImplemented => "Command not implemented."@,
        StatusCode::BadSequence => "Bad sequence of commands."@,
        StatusCode::CmdNotImplementedForParam => "Command not implemented for that parameter."@,
        StatusCode::ExtPortUnknownProtocol => "Extended Port Failure - unknown network protocol."@,
        StatusCode::NotLoggedIn => "Not logged in."@,
        StatusCode::NeedAccountForStoring => "Need account for storing files."@,
        StatusCode::CouldNotConnToServer => "Could Not Connect to Server - Policy Requires SSL."@,
        StatusCode::FileNotFound => "File not found, error encountered."@,
        StatusCode::RequestedActionAborted => "Requested action aborted. Page type unknown."@,
        StatusCode::RequestedFileActionAborted => "Requested file action aborted. Exceeded storage allocation."@,
        StatusCode::RequestedActionNotTaken => "Requested action not taken. File name not allowed."@,
        StatusCode::IntegrityProtectedReply => "Integrity protected reply."@,
        StatusCode::ConfAndIntegrityProtectedReply => "Confidentiality and integrity protected reply."@,
        StatusCode::ConfProtectedReply => "Confidentiality protected reply."@,
    }
}

impl StatusCode {
    /// The number of this reply code.
    pub fn code(self) -> (r: i32)
        ensures
            r == code_of(self),
    {
        match self {
            StatusCode::RestartMarker => 110,
            StatusCode::ReadyInAFew => 120,
            StatusCode::DataConnAlreadyOpen => 125,
            StatusCode::FileStatusOk => 150,
            StatusCode::OK => 200,
            StatusCode::NotImplemented => 202,
            StatusCode::SystemStatus => 211,
            StatusCode::DirStatus => 212,
            StatusCode::FileStatus => 213,
            StatusCode::HelpMessage => 214,
            StatusCode::NameSystem => 215,
            StatusCode::ServiceReady => 220,
            StatusCode::ClosingControlConn => 221,
            StatusCode::DataConnOpen => 225,
            StatusCode::ClosingDataConn => 226,
            StatusCode::EnterPassMode => 227,
            StatusCode::EnterLongPassMode => 228,
            StatusCode::EnterExtPassMode => 229,
            StatusCode::UserLoggedIn => 230,
            StatusCode::UserLoggedOut => 231,
            StatusCode::LogoutCmdNoted => 232,
            StatusCode::AuthAccepted => 234,
            StatusCode::RequestedFileOk => 250,
            StatusCode::PathCreated => 257,
            StatusCode::UsernameOk => 331,
            StatusCode::NeedAccount => 332,
            StatusCode::RequestedFileAction => 350,
            StatusCode::CmdNotAccepted => 400,
            StatusCode::ServiceNotAvailable => 421,
            StatusCode::CantOpenDataConn => 425,
            StatusCode::ConnClosed => 426,
            StatusCode::InvalidUsername => 430,
            StatusCode::HostUnavailable => 434,
            StatusCode::FileActionNotTaken => 450,
            StatusCode::ActionAborted => 451,
            StatusCode::ActionNotTaken => 452,
            StatusCode::UnknownError => 500,
            StatusCode::SyntaxError => 501,
            StatusCode::CmdNotImplemented => 502,
            StatusCode::BadSequence => 503,
            StatusCode::CmdNotImplementedForParam => 504,
            StatusCode::ExtPortUnknownProtocol => 522,
            StatusCode::NotLoggedIn => 530,
            StatusCode::NeedAccountForStoring => 532,
            StatusCode::CouldNotConnToServer => 534,
            StatusCode::FileNotFound => 550,
            StatusCode::RequestedActionAborted => 551,
            StatusCode::RequestedFileActionAborted => 552,
            StatusCode::RequestedActionNotTaken => 553,
            StatusCode::IntegrityProtectedReply => 631,
            StatusCode::ConfAndIntegrityProtectedReply => 632,
            StatusCode::ConfProtectedReply => 633,
        }
    }

    /// The text of this reply code.
    pub fn message(self) -> (r: &'static str)
        ensures
            r@ == message_of(self),
    {
        match self {
            StatusCode::RestartMarker => "Restart marker replay.",
            StatusCode::ReadyInAFew => "Service ready in a few minutes.",
            StatusCode::DataConnAlreadyOpen => "Data connection already open.",
            StatusCode::FileStatusOk => "File status okay, about to open data connection.",
            StatusCode::OK => "Command Ok.",
            StatusCode::NotImplemented => "Command not implemented.",
            StatusCode::SystemStatus => "System Status.",
            StatusCode::DirStatus => "Directory Status.",
            StatusCode::FileStatus => "File Status.",
            StatusCode::HelpMessage => "Help Message.",
            StatusCode::NameSystem => "NAME system type.",
            StatusCode::ServiceReady => "Service Ready.",
            StatusCode::ClosingControlConn => "Closing control connection.",
            StatusCode::DataConnOpen => "Data connection open, no transfer in progress.",
            StatusCode::ClosingDataConn => "Closing data connection. File action ok.",
            StatusCode::EnterPassMode => "Entering passive mode.",
            StatusCode::EnterLongPassMode => "Entering long passive mode.",
            StatusCode::EnterExtPassMode => "Entering extended passive mode.",
            StatusCode::UserLoggedIn => "User logged in, proceed. Logged out if appropriate.",
            StatusCode::UserLoggedOut => "User logged out, service terminated.",
            StatusCode::LogoutCmdNoted => "Logout command noted.",
            StatusCode::AuthAccepted => "Authentication mechanism accepted.",
            StatusCode::RequestedFileOk => "Requested file action ok, completed.",
            StatusCode::PathCreated => "Path created.",
            StatusCode::UsernameOk => "Username okay, need password.",
            StatusCode::NeedAccount => "Need account for login.",
            StatusCode::RequestedFileAction => "Requested file action pending more information.",
            StatusCode::CmdNotAccepted => "Command not accepted, please try again.",
            StatusCode::ServiceNotAvailable => "Service not available, closing control connection.",
            StatusCode::CantOpenDataConn => "Can't open data connection.",
            StatusCode::ConnClosed => "Connection closed, transfer aborted.",
            StatusCode::InvalidUsername => "Invalid username or password.",
            StatusCode::HostUnavailable => "Requested host unavailable.",
            StatusCode::FileActionNotTaken => "Requested file action not taken.",
            StatusCode::ActionAborted => "Requested action aborted. Local error in processing.",
            StatusCode::ActionNotTaken => "Requested action not taken. Insufficient storage space in system.",
            StatusCode::UnknownError => "Unknown error.",
            StatusCode::SyntaxError => "Syntax error in parameters or arguments.",
            StatusCode::CmdNotImplemented => "Command not implemented.",
            StatusCode::BadSequence => "Bad sequence of commands.",
            StatusCode::CmdNotImplementedForParam => "Command not implemented for that parameter.",
            StatusCode::ExtPortUnknownProtocol => "Extended Port Failure - unknown network protocol.",
            StatusCode::NotLoggedIn => "Not logged in.",
            StatusCode::NeedAccountForStoring => "Need account for storing files.",
            StatusCode::CouldNotConnToServer => "Could Not Connect to Server - Policy Requires SSL.",
            StatusCode::FileNotFound => "File not found, error encountered.",
            StatusCode::RequestedActionAborted => "Requested action aborted. Page type unknown.",
            StatusCode::RequestedFileActionAborted => "Requested file action aborted. Exceeded storage allocation.",
            StatusCode::RequestedActionNotTaken => "Requested action not taken. File name not allowed.",
            StatusCode::IntegrityProtectedReply => "Integrity protected reply.",
            StatusCode::ConfAndIntegrityProtectedReply => "Confidentiality and integrity protected reply.",
            StatusCode::ConfProtectedReply => "Confidentiality protected reply.",
        }
    }
}

/// A command of the protocol.
#[derive(Debug, Clone, Copy, PartialEq, Eq, Structural)]
pub enum Cmd {
    Abort,
    Account,
    AuthData,
    Allo,
    Append,
    Auth,
    Avail,
    Clear,
    ChangeParent,
    Conf,
    CsId,
    ChangeDir,
    Delete,
    DirSize,
    PrivProtected,
    ExtAddrPort,
    ExtPassvMode,
    FeatList,
    Help,
    Host,
    Lang,
    List,
    LongAddrPort,
    LongPassvMode,
    LongModTime,
    ModCreateTime,
    ModFact,
    ModLastModTime,
    InteProtect,
    MakeDir,
    ListDir,
    ObjData,
    Mode,
    FileNames,
    Noop,
    Options,
    Password,
    Passive,
    BufSizePort,
    Port,
    DataChanProtoLvl,
    PrintDir,
    Quit,
    Reinit,
    Restart,
    Retrieve,
    RemoveDir,
    RemoveDirTree,
    RenameFrom,
    RenameTo,
    Site,
    FileSize,
    MountFile,
    SinglePortPassv,
    ServerStatus,
    AcceptAndStore,
    StoreFile,
    FileStruct,
    SystemType,
    Thumbnail,
    Type,
    User,
    ChangeToParentDir,
    ChangeTheDir,
    MakeADir,
    PrintCurDir,
    RemoveTheDir,
    SendMail,
    SendTerm,
}

/// The token that names a command, in upper case.
pub open spec fn token_of(c: Cmd) -> Seq<char> {
    match c {
        Cmd::Abort => "ABOR"@,
        Cmd::Account => "ACCT"@,
        Cmd::AuthData => "ADAT"@,
        Cmd::Allo => "ALLO"@,
        Cmd::Append => "APPE"@,
        Cmd::Auth => "AUTH"@,
        Cmd::Avail => "AVBL"@,
        Cmd::Clear => "CCC"@,
        Cmd::ChangeParent => "CDUP"@,
        Cmd::Conf => "CONF"@,
        Cmd::CsId => "CSID"@,
        Cmd::ChangeDir => "CWD"@,
        Cmd::Delete => "DELE"@,
        Cmd::DirSize => "DSIZ"@,
        Cmd::PrivProtected => "ENC"@,
        Cmd::ExtAddrPort => "EPRT"@,
        Cmd::ExtPassvMode => "EPSV"@,
        Cmd::FeatList => "FEAT"@,
        Cmd::Help => "HELP"@,
        Cmd::Host => "HOST"@,
        Cmd::Lang => "LANG"@,
        Cmd::List => "LIST"@,
        Cmd::LongAddrPort => "LPRT"@,
        Cmd::LongPassvMode => "LPSV"@,
        Cmd::LongModTime => "MDTM"@,
        Cmd::ModCreateTime => "MFCT"@,
        Cmd::ModFact => "MFF"@,
        Cmd::ModLastModTime => "MFMT"@,
        Cmd::InteProtect => "MIC"@,
        Cmd::MakeDir => "MKD"@,
        Cmd::ListDir => "MLSD"@,
        Cmd::ObjData => "MLST"@,
        Cmd::Mode => "MODE"@,
        Cmd::FileNames => "NLST"@,
        Cmd::Noop => "NOOP"@,
        Cmd::Options => "OPTS"@,
        Cmd::Password => "PASS"@,
        Cmd::Passive => "PASV"@,
        Cmd::BufSizePort => "PBSZ"@,
        Cmd::Port => "PORT"@,
        Cmd::DataChanProtoLvl => "PROT"@,
        Cmd::PrintDir => "PWD"@,
        Cmd::Quit => "QUIT"@,
        Cmd::Reinit => "REIN"@,
        Cmd::Restart => "REST"@,
        Cmd::Retrieve => "RETR"@,
        Cmd::RemoveDir => "RMD"@,
        Cmd::RemoveDirTree => "RMDA"@,
        Cmd::RenameFrom => "RNFR"@,
        Cmd::RenameTo => "RNTO"@,
        Cmd::Site => "SITE"@,
        Cmd::FileSize => "SIZE"@,
        Cmd::MountFile => "SMNT"@,
        Cmd::SinglePortPassv => "SPSV"@,
        Cmd::ServerStatus => "STAT"@,
        Cmd::AcceptAndStore => "STOR"@,
        Cmd::StoreFile => "STOU"@,
        Cmd::FileStruct => "STRU"@,
        Cmd::SystemType => "SYST"@,
        Cmd::Thumbnail => "THMB"@,
        Cmd::Type => "TYPE"@,
        Cmd::User => "USER"@,
        Cmd::ChangeToParentDir => "XCUP"@,
        Cmd::ChangeTheDir => "XCWD"@,
        Cmd::MakeADir => "XMKD"@,
        Cmd::PrintCurDir => "XPWD"@,
        Cmd::RemoveTheDir => "XRMD"@,
        Cmd::SendMail => "XSEM"@,
        Cmd::SendTerm => "XSEN"@,
    }
}

/// Two letters that are equal but for ASCII case.
pub open spec fn same_letter(a: char, b: char) -> bool {
    ||| a == b
    ||| ('a' <= a && a <= 'z' && b as u32 == a as u32 - 32)
    ||| ('A' <= a && a <= 'Z' && b as u32 == a as u32 + 32)
}

/// Two words that are equal but for ASCII case.
pub open spec fn same_word(a: Seq<char>, b: Seq<char>) -> bool {
    a.len() == b.len() && forall|i: int| 0 <= i < a.len() ==> same_letter(#[trigger] a[i], b[i])
}

/// Whether `v` and `s` are the same word but for ASCII case.
pub fn same_word_chars(v: &Vec<char>, s: &str) -> (r: bool)
    ensures
        r == same_word(v@, s@),
{
    let w = chars_of(s);
    if v.len() != w.len() {
        return false;
    }
    let mut i: usize = 0;
    while i < v.len()
        invariant
            i <= v@.len() == w@.len(),
            w@ == s@,
            forall|j: int| 0 <= j < i ==> same_letter(#[trigger] v@[j], w@[j]),
        decreases v@.len() - i,
    {
        let a = v[i];
        let b = w[i];
        let same = a == b || ('a' <= a && a <= 'z' && (b as u32) == (a as u32) - 32) || ('A'
            <= a && a <= 'Z' && (b as u32) == (a as u32) + 32);
        if !same {
            return false;
        }
        i += 1;
    }
    true
}

impl Cmd {
    /// The token of this command.
    pub fn token(self) -> (r: &'static str)
        ensures
            r@ == token_of(self),
    {
        match self {
            Cmd::Abort => "ABOR",
            Cmd::Account => "ACCT",
            Cmd::AuthData => "ADAT",
            Cmd::Allo => "ALLO",
            Cmd::Append => "APPE",
            Cmd::Auth => "AUTH",
            Cmd::Avail => "AVBL",
            Cmd::Clear => "CCC",
            Cmd::ChangeParent => "CDUP",
            Cmd::Conf => "CONF",
            Cmd::CsId => "CSID",
            Cmd::ChangeDir => "CWD",
            Cmd::Delete => "DELE",
            Cmd::DirSize => "DSIZ",
            Cmd::PrivProtected => "ENC",
            Cmd::ExtAddrPort => "EPRT",
            Cmd::ExtPassvMode => "EPSV",
            Cmd::FeatList => "FEAT",
            Cmd::Help => "HELP",
            Cmd::Host => "HOST",
            Cmd::Lang => "LANG",
            Cmd::List => "LIST",
            Cmd::LongAddrPort => "LPRT",
            Cmd::LongPassvMode => "LPSV",
            Cmd::LongModTime => "MDTM",
            Cmd::ModCreateTime => "MFCT",
            Cmd::ModFact => "MFF",
            Cmd::ModLastModTime => "MFMT",
            Cmd::InteProtect => "MIC",
            Cmd::MakeDir => "MKD",
            Cmd::ListDir => "MLSD",
            Cmd::ObjData => "MLST",
            Cmd::Mode => "MODE",
            Cmd::FileNames => "NLST",
            Cmd::Noop => "NOOP",
            Cmd::Options => "OPTS",
            Cmd::Password => "PASS",
            Cmd::Passive => "PASV",
            Cmd::BufSizePort => "PBSZ",
            Cmd::Port => "PORT",
            Cmd::DataChanProtoLvl => "PROT",
            Cmd::PrintDir => "PWD",
            Cmd::Quit => "QUIT",
            Cmd::Reinit => "REIN",
            Cmd::Restart => "REST",
            Cmd::Retrieve => "RETR",
            Cmd::RemoveDir => "RMD",
            Cmd::RemoveDirTree => "RMDA",
            Cmd::RenameFrom => "RNFR",
            Cmd::RenameTo => "RNTO",
            Cmd::Site => "SITE",
            Cmd::FileSize => "SIZE",
            Cmd::MountFile => "SMNT",
            Cmd::SinglePortPassv => "SPSV",
            Cmd::ServerStatus => "STAT",
            Cmd::AcceptAndStore => "STOR",
            Cmd::StoreFile => "STOU",
            Cmd::FileStruct => "STRU",
            Cmd::SystemType => "SYST",
            Cmd::Thumbnail => "THMB",
            Cmd::Type => "TYPE",
            Cmd::User => "USER",
            Cmd::ChangeToParentDir => "XCUP",
            Cmd::ChangeTheDir => "XCWD",
            Cmd::MakeADir => "XMKD",
            Cmd::PrintCurDir => "XPWD",
            Cmd::RemoveTheDir => "XRMD",
            Cmd::SendMail => "XSEM",
            Cmd::SendTerm => "XSEN",
        }
    }

    /// The command that `tok` names, in any case of its letters: the only
    /// one whose token it is.
    pub fn parse(tok: &str) -> (r: Option<Cmd>)
        ensures
            r matches Some(c) ==> same_word(tok@, token_of(c)),
            r matches Some(c) ==> forall|d: Cmd| same_word(tok@, #[trigger] token_of(d)) ==> d == c,
            r is None ==> forall|c: Cmd| !same_word(tok@, #[trigger] token_of(c)),
    {
        let r = Self::first_match(tok);
        proof {
            if let Some(c) = r {
                assert forall|d: Cmd| same_word(tok@, #[trigger] token_of(d)) implies d == c by {
                    lemma_same_token(tok@, c, d);
                }
            }
        }
        r
    }

    fn first_match(tok: &str) -> (r: Option<Cmd>)
        ensures
            r matches Some(c) ==> same_word(tok@, token_of(c)),
            r is None ==> forall|c: Cmd| !same_word(tok@, #[trigger] token_of(c)),
    {
        let v = chars_of(tok);
        if same_word_chars(&v, Cmd::Abort.token()) {
            return Some(Cmd::Abort);
        }
        if same_word_chars(&v, Cmd::Account.token()) {
            return Some(Cmd::Account);
        }
        if same_word_chars(&v, Cmd::AuthData.token()) {
            return Some(Cmd::AuthData);
        }
        if same_word_chars(&v, Cmd::Allo.token()) {
            return Some(Cmd::Allo);
        }
        if same_word_chars(&v, Cmd::Append.token()) {
            return Some(Cmd::Append);
        }
        if same_word_chars(&v, Cmd::Auth.token()) {
            return Some(Cmd::Auth);
        }
        if same_word_chars(&v, Cmd::Avail.token()) {
            return Some(Cmd::Avail);
        }
        if same_word_chars(&v, Cmd::Clear.token()) {
            return Some(Cmd::Clear);
        }
        if same_word_chars(&v, Cmd::ChangeParent.token()) {
            return Some(Cmd::ChangeParent);
        }
        if same_word_chars(&v, Cmd::Conf.token()) {
            return Some(Cmd::Conf);
        }
        if same_word_chars(&v, Cmd::CsId.token()) {
            return Some(Cmd::CsId);
        }
        if same_word_chars(&v, Cmd::ChangeDir.token()) {
            return Some(Cmd::ChangeDir);
        }
        if same_word_chars(&v, Cmd::Delete.token()) {
            return Some(Cmd::Delete);
        }
        if same_word_chars(&v, Cmd::DirSize.token()) {
            return Some(Cmd::DirSize);
        }
        if same_word_chars(&v, Cmd::PrivProtected.token()) {
            return Some(Cmd::PrivProtected);
        }
        if same_word_chars(&v, Cmd::ExtAddrPort.token()) {
            return Some(Cmd::ExtAddrPort);
        }
        if same_word_chars(&v, Cmd::ExtPassvMode.token()) {
            return Some(Cmd::ExtPassvMode);
        }
        if same_word_chars(&v, Cmd::FeatList.token()) {
            return Some(Cmd::FeatList);
        }
        if same_word_chars(&v, Cmd::Help.token()) {
            return Some(Cmd::Help);
        }
        if same_word_chars(&v, Cmd::Host.token()) {
            return Some(Cmd::Host);
        }
        if same_word_chars(&v, Cmd::Lang.token()) {
            return Some(Cmd::Lang);
        }
        if same_word_chars(&v, Cmd::List.token()) {
            return Some(Cmd::List);
        }
        if same_word_chars(&v, Cmd::LongAddrPort.token()) {
            return Some(Cmd::LongAddrPort);
        }
        if same_word_chars(&v, Cmd::LongPassvMode.token()) {
            return Some(Cmd::LongPassvMode);
        }
        if same_word_chars(&v, Cmd::LongModTime.token()) {
            return Some(Cmd::LongModTime);
        }
        if same_word_chars(&v, Cmd::ModCreateTime.token()) {
            return Some(Cmd::ModCreateTime);
        }
        if same_word_chars(&v, Cmd::ModFact.token()) {
            return Some(Cmd::ModFact);
        }
        if same_word_chars(&v, Cmd::ModLastModTime.token()) {
            return Some(Cmd::ModLastModTime);
        }
        if same_word_chars(&v, Cmd::InteProtect.token()) {
            return Some(Cmd::InteProtect);
        }
        if same_word_chars(&v, Cmd::MakeDir.token()) {
            return Some(Cmd::MakeDir);
        }
        if same_word_chars(&v, Cmd::ListDir.token()) {
            return Some(Cmd::ListDir);
        }
        if same_word_chars(&v, Cmd::ObjData.token()) {
            return Some(Cmd::ObjData);
        }
        if same_word_chars(&v, Cmd::Mode.token()) {
            return Some(Cmd::Mode);
        }
        if same_word_chars(&v, Cmd::FileNames.token()) {
            return Some(Cmd::FileNames);
        }
        if same_word_chars(&v, Cmd::Noop.token()) {
            return Some(Cmd::Noop);
        }
        if same_word_chars(&v, Cmd::Options.token()) {
            return Some(Cmd::Options);
        }
        if same_word_chars(&v, Cmd::Password.token()) {
            return Some(Cmd::Password);
        }
        if same_word_chars(&v, Cmd::Passive.token()) {
            return Some(Cmd::Passive);
        }
        if same_word_chars(&v, Cmd::BufSizePort.token()) {
            return Some(Cmd::BufSizePort);
        }
        if same_word_chars(&v, Cmd::Port.token()) {
            return Some(Cmd::Port);
        }
        if same_word_chars(&v, Cmd::DataChanProtoLvl.token()) {
            return Some(Cmd::DataChanProtoLvl);
        }
        if same_word_chars(&v, Cmd::PrintDir.token()) {
            return Some(Cmd::PrintDir);
        }
        if same_word_chars(&v, Cmd::Quit.token()) {
            return Some(Cmd::Quit);
        }
        if same_word_chars(&v, Cmd::Reinit.token()) {
            return Some(Cmd::Reinit);
        }
        if same_word_chars(&v, Cmd::Restart.token()) {
            return Some(Cmd::Restart);
        }
        if same_word_chars(&v, Cmd::Retrieve.token()) {
            return Some(Cmd::Retrieve);
        }
        if same_word_chars(&v, Cmd::RemoveDir.token()) {
            return Some(Cmd::RemoveDir);
        }
        if same_word_chars(&v, Cmd::RemoveDirTree.token()) {
            return Some(Cmd::RemoveDirTree);
        }
        if same_word_chars(&v, Cmd::RenameFrom.token()) {
            return Some(Cmd::RenameFrom);
        }
        if same_word_chars(&v, Cmd::RenameTo.token()) {
            return Some(Cmd::RenameTo);
        }
        if same_word_chars(&v, Cmd::Site.token()) {
            return Some(Cmd::Site);
        }
        if same_word_chars(&v, Cmd::FileSize.token()) {
            return Some(Cmd::FileSize);
        }
        if same_word_chars(&v, Cmd::MountFile.token()) {
            return Some(Cmd::MountFile);
        }
        if same_word_chars(&v, Cmd::SinglePortPassv.token()) {
            return Some(Cmd::SinglePortPassv);
        }
        if same_word_chars(&v, Cmd::ServerStatus.token()) {
            return Some(Cmd::ServerStatus);
        }
        if same_word_chars(&v, Cmd::AcceptAndStore.token()) {
            return Some(Cmd::AcceptAndStore);
        }
        if same_word_chars(&v, Cmd::StoreFile.token()) {
            return Some(Cmd::StoreFile);
        }
        if same_word_chars(&v, Cmd::FileStruct.token()) {
            return Some(Cmd::FileStruct);
        }
        if same_word_chars(&v, Cmd::SystemType.token()) {
            return Some(Cmd::SystemType);
        }
        if same_word_chars(&v, Cmd::Thumbnail.token()) {
            return Some(Cmd::Thumbnail);
        }
        if same_word_chars(&v, Cmd::Type.token()) {
            return Some(Cmd::Type);
        }
        if same_word_chars(&v, Cmd::User.token()) {
            return Some(Cmd::User);
        }
        if same_word_chars(&v, Cmd::ChangeToParentDir.token()) {
            return Some(Cmd::ChangeToParentDir);
        }
        if same_word_chars(&v, Cmd::ChangeTheDir.token()) {
            return Some(Cmd::ChangeTheDir);
        }
        if same_word_chars(&v, Cmd::MakeADir.token()) {
            return Some(Cmd::MakeADir);
        }
        if same_word_chars(&v, Cmd::PrintCurDir.token()) {
            return Some(Cmd::PrintCurDir);
        }
        if same_word_chars(&v, Cmd::RemoveTheDir.token()) {
            return Some(Cmd::RemoveTheDir);
        }
        if same_word_chars(&v, Cmd::SendMail.token()) {
            return Some(Cmd::SendMail);
        }
        if same_word_chars(&v, Cmd::SendTerm.token()) {
            return Some(Cmd::SendTerm);
        }
        None
    }
}

/// A number that tells tokens apart: the token's characters as digits in
/// base 128.
pub open spec fn token_key(t: Seq<char>) -> int
    decreases t.len(),
{
    if t.len() == 0 {
        0
    } else {
        token_key(t.drop_last()) * 128 + (t.last() as u32) as int
    }
}

/// The command whose token has the key `k`.
pub open spec fn cmd_of_key(k: int) -> Option<Cmd> {
    if k == 137406418 {
        Some(Cmd::Abort)
    } else if k == 137421268 {
        Some(Cmd::Account)
    } else if k == 137437396 {
        Some(Cmd::AuthData)
    } else if k == 137569871 {
        Some(Cmd::Allo)
    } else if k == 137635909 {
        Some(Cmd::Append)
    } else if k == 137718344 {
        Some(Cmd::Auth)
    } else if k == 137732428 {
        Some(Cmd::Avail)
    } else if k == 1106371 {
        Some(Cmd::Clear)
    } else if k == 141634256 {
        Some(Cmd::ChangeParent)
    } else if k == 141813574 {
        Some(Cmd::Conf)
    } else if k == 141878468 {
        Some(Cmd::CsId)
    } else if k == 1108932 {
        Some(Cmd::ChangeDir)
    } else if k == 143746629 {
        Some(Cmd::Delete)
    } else if k == 143975642 {
        Some(Cmd::DirSize)
    } else if k == 1140547 {
        Some(Cmd::PrivProtected)
    } else if k == 146024788 {
        Some(Cmd::ExtAddrPort)
    } else if k == 146024918 {
        Some(Cmd::ExtPassvMode)
    } else if k == 147939540 {
        Some(Cmd::FeatList)
    } else if k == 152135248 {
        Some(Cmd::Help)
    } else if k == 152299988 {
        Some(Cmd::Host)
    } else if k == 160458567 {
        Some(Cmd::Lang)
    } else if k == 160590292 {
        Some(Cmd::List)
    } else if k == 160704852 {
        Some(Cmd::LongAddrPort)
    } else if k == 160704982 {
        Some(Cmd::LongPassvMode)
    } else if k == 162605645 {
        Some(Cmd::LongModTime)
    } else if k == 162636244 {
        Some(Cmd::ModCreateTime)
    } else if k == 1270598 {
        Some(Cmd::ModFact)
    } else if k == 162637524 {
        Some(Cmd::ModLastModTime)
    } else if k == 1270979 {
        Some(Cmd::InteProtect)
    } else if k == 1271236 {
        Some(Cmd::MakeDir)
    } else if k == 162736580 {
        Some(Cmd::ListDir)
    } else if k == 162736596 {
        Some(Cmd::ObjData)
    } else if k == 162783813 {
        Some(Cmd::Mode)
    } else if k == 164833748 {
        Some(Cmd::FileNames)
    } else if k == 164882384 {
        Some(Cmd::Noop)
    } else if k == 166996563 {
        Some(Cmd::Options)
    } else if k == 168847827 {
        Some(Cmd::Password)
    } else if k == 168847830 {
        Some(Cmd::Passive)
    } else if k == 168864218 {
        Some(Cmd::BufSizePort)
    } else if k == 169077076 {
        Some(Cmd::Port)
    } else if k == 169125844 {
        Some(Cmd::DataChanProtoLvl)
    } else if k == 1321924 {
        Some(Cmd::PrintDir)
    } else if k == 171271380 {
        Some(Cmd::Quit)
    } else if k == 173106382 {
        Some(Cmd::Reinit)
    } else if k == 173107668 {
        Some(Cmd::Restart)
    } else if k == 173107794 {
        Some(Cmd::Retrieve)
    } else if k == 1353412 {
        Some(Cmd::RemoveDir)
    } else if k == 173236801 {
        Some(Cmd::RemoveDirTree)
    } else if k == 173253458 {
        Some(Cmd::RenameFrom)
    } else if k == 173255247 {
        Some(Cmd::RenameTo)
    } else if k == 175270469 {
        Some(Cmd::Site)
    } else if k == 175271237 {
        Some(Cmd::FileSize)
    } else if k == 175335252 {
        Some(Cmd::MountFile)
    } else if k == 175385046 {
        Some(Cmd::SinglePortPassv)
    } else if k == 175448276 {
        Some(Cmd::ServerStatus)
    } else if k == 175450066 {
        Some(Cmd::AcceptAndStore)
    } else if k == 175450069 {
        Some(Cmd::StoreFile)
    } else if k == 175450453 {
        Some(Cmd::FileStruct)
    } else if k == 175532500 {
        Some(Cmd::SystemType)
    } else if k == 177350338 {
        Some(Cmd::Thumbnail)
    } else if k == 177629253 {
        Some(Cmd::Type)
    } else if k == 179626706 {
        Some(Cmd::User)
    } else if k == 185658064 {
        Some(Cmd::ChangeToParentDir)
    } else if k == 185658308 {
        Some(Cmd::ChangeTheDir)
    } else if k == 185820612 {
        Some(Cmd::MakeADir)
    } else if k == 185871300 {
        Some(Cmd::PrintCurDir)
    } else if k == 185902788 {
        Some(Cmd::RemoveTheDir)
    } else if k == 185918157 {
        Some(Cmd::SendMail)
    } else if k == 185918158 {
        Some(Cmd::SendTerm)
    } else {
        None
    }
}

/// Every token is written in upper-case letters, and its key leads back
/// to its command.
pub proof fn lemma_token_shape(c: Cmd)
    ensures
        forall|i: int| 0 <= i < token_of(c).len() ==> 'A' <= #[trigger] token_of(c)[i] <= 'Z',
        cmd_of_key(token_key(token_of(c))) == Some(c),
{
    match c {
        Cmd::Abort => {
            reveal_strlit("ABOR");
            reveal_with_fuel(token_key, 5);
        },
        Cmd::Account => {
            reveal_strlit("ACCT");
            reveal_with_fuel(token_key, 5);
        },
        Cmd::AuthData => {
            reveal_strlit("ADAT");
            reveal_with_fuel(token_key, 5);
        },
        Cmd::Allo => {
            reveal_strlit("ALLO");
            reveal_with_fuel(token_key, 5);
        },
        Cmd::Append => {
            reveal_strlit("APPE");
            reveal_with_fuel(token_key, 5);
        },
        Cmd::Auth => {
            reveal_strlit("AUTH");
            reveal_with_fuel(token_key, 5);
        },
        Cmd::Avail => {
            reveal_strlit("AVBL");
            reveal_with_fuel(token_key, 5);
        },
        Cmd::Clear => {
            reveal_strlit("CCC");
            reveal_with_fuel(token_key, 5);
        },
        Cmd::ChangeParent => {
            reveal_strlit("CDUP");
            reveal_with_fuel(token_key, 5);
        },
        Cmd::Conf => {
            reveal_strlit("CONF");
            reveal_with_fuel(token_key, 5);
        },
        Cmd::CsId => {
            reveal_strlit("CSID");
            reveal_with_fuel(token_key, 5);
        },
        Cmd::ChangeDir => {
            reveal_strlit("CWD");
            reveal_with_fuel(token_key, 5);
        },
        Cmd::Delete => {
            reveal_strlit("DELE");
            reveal_with_fuel(token_key, 5);
        },
        Cmd::DirSize => {
            reveal_strlit("DSIZ");
            reveal_with_fuel(token_key, 5);
        },
        Cmd::PrivProtected => {
            reveal_strlit("ENC");
            reveal_with_fuel(token_key, 5);
        },
        Cmd::ExtAddrPort => {
            reveal_strlit("EPRT");
            reveal_with_fuel(token_key, 5);
        },
        Cmd::ExtPassvMode => {
            reveal_strlit("EPSV");
            reveal_with_fuel(token_key, 5);
        },
        Cmd::FeatList => {
            reveal_strlit("FEAT");
            reveal_with_fuel(token_key, 5);
        },
        Cmd::Help => {
            reveal_strlit("HELP");
            reveal_with_fuel(token_key, 5);
        },
        Cmd::Host => {
            reveal_strlit("HOST");
            reveal_with_fuel(token_key, 5);
        },
        Cmd::Lang => {
            reveal_strlit("LANG");
            reveal_with_fuel(token_key, 5);
        },
        Cmd::List => {
            reveal_strlit("LIST");
            reveal_with_fuel(token_key, 5);
        },
        Cmd::LongAddrPort => {
            reveal_strlit("LPRT");
            reveal_with_fuel(token_key, 5);
        },
        Cmd::LongPassvMode => {
            reveal_strlit("LPSV");
            reveal_with_fuel(token_key, 5);
        },
        Cmd::LongModTime => {
            reveal_strlit("MDTM");
            reveal_with_fuel(token_key, 5);
        },
        Cmd::ModCreateTime => {
            reveal_strlit("MFCT");
            reveal_with_fuel(token_key, 5);
        },
        Cmd::ModFact => {
            reveal_strlit("MFF");
            reveal_with_fuel(token_key, 5);
        },
        Cmd::ModLastModTime => {
            reveal_strlit("MFMT");
            reveal_with_fuel(token_key, 5);
        },
        Cmd::InteProtect => {
            reveal_strlit("MIC");
            reveal_with_fuel(token_key, 5);
        },
        Cmd::MakeDir => {
            reveal_strlit("MKD");
            reveal_with_fuel(token_key, 5);
        },
        Cmd::ListDir => {
            reveal_strlit("MLSD");
            reveal_with_fuel(token_key, 5);
        },
        Cmd::ObjData => {
            reveal_strlit("MLST");
            reveal_with_fuel(token_key, 5);
        },
        Cmd::Mode => {
            reveal_strlit("MODE");
            reveal_with_fuel(token_key, 5);
        },
        Cmd::FileNames => {
            reveal_strlit("NLST");
            reveal_with_fuel(token_key, 5);
        },
        Cmd::Noop => {
            reveal_strlit("NOOP");
            reveal_with_fuel(token_key, 5);
        },
        Cmd::Options => {
            reveal_strlit("OPTS");
            reveal_with_fuel(token_key, 5);
        },
        Cmd::Password => {
            reveal_strlit("PASS");
            reveal_with_fuel(token_key, 5);
        },
        Cmd::Passive => {
            reveal_strlit("PASV");
            reveal_with_fuel(token_key, 5);
        },
        Cmd::BufSizePort => {
            reveal_strlit("PBSZ");
            reveal_with_fuel(token_key, 5);
        },
        Cmd::Port => {
            reveal_strlit("PORT");
            reveal_with_fuel(token_key, 5);
        },
        Cmd::DataChanProtoLvl => {
            reveal_strlit("PROT");
            reveal_with_fuel(token_key, 5);
        },
        Cmd::PrintDir => {
            reveal_strlit("PWD");
            reveal_with_fuel(token_key, 5);
        },
        Cmd::Quit => {
            reveal_strlit("QUIT");
            reveal_with_fuel(token_key, 5);
        },
        Cmd::Reinit => {
            reveal_strlit("REIN");
            reveal_with_fuel(token_key, 5);
        },
        Cmd::Restart => {
            reveal_strlit("REST");
            reveal_with_fuel(token_key, 5);
        },
        Cmd::Retrieve => {
            reveal_strlit("RETR");
            reveal_with_fuel(token_key, 5);
        },
        Cmd::RemoveDir => {
            reveal_strlit("RMD");
            reveal_with_fuel(token_key, 5);
        },
        Cmd::RemoveDirTree => {
            reveal_strlit("RMDA");
            reveal_with_fuel(token_key, 5);
        },
        Cmd::RenameFrom => {
            reveal_strlit("RNFR");
            reveal_with_fuel(token_key, 5);
        },
        Cmd::RenameTo => {
            reveal_strlit("RNTO");
            reveal_with_fuel(token_key, 5);
        },
        Cmd::Site => {
            reveal_strlit("SITE");
            reveal_with_fuel(token_key, 5);
        },
        Cmd::FileSize => {
            reveal_strlit("SIZE");
            reveal_with_fuel(token_key, 5);
        },
        Cmd::MountFile => {
            reveal_strlit("SMNT");
            reveal_with_fuel(token_key, 5);
        },
        Cmd::SinglePortPassv => {
            reveal_strlit("SPSV");
            reveal_with_fuel(token_key, 5);
        },
        Cmd::ServerStatus => {
            reveal_strlit("STAT");
            reveal_with_fuel(token_key, 5);
        },
        Cmd::AcceptAndStore => {
            reveal_strlit("STOR");
            reveal_with_fuel(token_key, 5);
        },
        Cmd::StoreFile => {
            reveal_strlit("STOU");
            reveal_with_fuel(token_key, 5);
        },
        Cmd::FileStruct => {
            reveal_strlit("STRU");
            reveal_with_fuel(token_key, 5);
        },
        Cmd::SystemType => {
            reveal_strlit("SYST");
            reveal_with_fuel(token_key, 5);
        },
        Cmd::Thumbnail => {
            reveal_strlit("THMB");
            reveal_with_fuel(token_key, 5);
        },
        Cmd::Type => {
            reveal_strlit("TYPE");
            reveal_with_fuel(token_key, 5);
        },
        Cmd::User => {
            reveal_strlit("USER");
            reveal_with_fuel(token_key, 5);
        },
        Cmd::ChangeToParentDir => {
            reveal_strlit("XCUP");
            reveal_with_fuel(token_key, 5);
        },
        Cmd::ChangeTheDir => {
            reveal_strlit("XCWD");
            reveal_with_fuel(token_key, 5);
        },
        Cmd::MakeADir => {
            reveal_strlit("XMKD");
            reveal_with_fuel(token_key, 5);
        },
        Cmd::PrintCurDir => {
            reveal_strlit("XPWD");
            reveal_with_fuel(token_key, 5);
        },
        Cmd::RemoveTheDir => {
            reveal_strlit("XRMD");
            reveal_with_fuel(token_key, 5);
        },
        Cmd::SendMail => {
            reveal_strlit("XSEM");
            reveal_with_fuel(token_key, 5);
        },
        Cmd::SendTerm => {
            reveal_strlit("XSEN");
            reveal_with_fuel(token_key, 5);
        },
    }
}

/// No word is the token of two commands: the tokens are distinct even when
/// the case of letters is ignored.
pub proof fn lemma_same_token(w: Seq<char>, c: Cmd, d: Cmd)
    requires
        same_word(w, token_of(c)),
        same_word(w, token_of(d)),
    ensures
        c == d,
{
    lemma_token_shape(c);
    lemma_token_shape(d);
    let a = token_of(c);
    let b = token_of(d);
    assert forall|i: int| 0 <= i < a.len() implies a[i] == b[i] by {
        assert(same_letter(w[i], a[i]));
        assert(same_letter(w[i], b[i]));
        assert('A' <= a[i] <= 'Z');
        assert('A' <= b[i] <= 'Z');
    }
    assert(a =~= b);
}

} // verus!
