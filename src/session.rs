//! The per-connection session: its state, the command dispatcher that moves
//! it from one state to the next, and the registry of live sessions.

use std::collections::HashMap;

use vstd::prelude::*;
use vstd::std_specs::hash::spec_keys_iter;
use vstd::std_specs::iter::IteratorSpec;

use crate::conf::{empty_user, users_view, Conf, ConfView, User, UserView};
use crate::dataconn::{
    eprt_args, ext_passive_reply_text, ext_passive_text, parse_eprt_args, parse_port_args,
    passive_reply_text, passive_text, port_args, EprtError, HostPort,
};
use crate::ftr::{code_of, message_of, same_word, same_word_chars, token_of, Cmd, StatusCode};
use crate::path::{
    display_path, lemma_resolve_proper, names_view, path_text, proper_path, resolve, resolve_path,
};
use crate::text::{
    after_char, before_char, chars_of, decimal, find_char, push_decimal, push_str, slice_of,
    string_of, trim, trim_chars,
};

verus! {

/// How far a client has come in logging in.
#[derive(Debug, Clone, Copy, PartialEq, Eq, Structural)]
pub enum AuthState {
    Unauthenticated,
    UsernameGiven,
    Authenticated,
}

/// How file contents travel: ASCII with newlines normalized, or raw bytes.
#[derive(Debug, Clone, Copy, PartialEq, Eq, Structural)]
pub enum TransferType {
    Ascii,
    Binary,
}

/// Who opens the next data connection: nobody yet, the server towards the
/// client's address (active), or the client towards the server's listener
/// (passive).
#[derive(Debug, Clone, Copy, PartialEq, Eq, Structural)]
pub enum DataMode {
    NoMode,
    Active(HostPort),
    Passive(HostPort),
}

/// What a transfer command moves over the data connection.
#[derive(Debug, Clone, Copy, PartialEq, Eq, Structural)]
pub enum TransferKind {
    Retrieve,
    Store,
    StoreUnique,
    Append,
    List,
    NameList,
    MachineList,
}

/// How a transfer ended.
#[derive(Debug, Clone, Copy, PartialEq, Eq, Structural)]
pub enum TransferOutcome {
    /// No data connection could be opened, or none came in time.
    NoConnection,
    Completed,
    /// A local error stopped the transfer.
    LocalError,
    /// The file could not be opened.
    FileError,
    /// The client aborted the transfer.
    Aborted,
}

/// A reply: its code and its text.
pub struct Reply {
    pub code: StatusCode,
    pub text: String,
}

pub struct ReplyView {
    pub code: StatusCode,
    pub text: Seq<char>,
}

impl View for Reply {
    type V = ReplyView;

    open spec fn view(&self) -> ReplyView {
        ReplyView { code: self.code, text: self.text@ }
    }
}

/// A transfer to run: what to move, the file or directory it concerns,
/// how to open the data connection, and how to carry the bytes.
pub struct TransferJob {
    pub kind: TransferKind,
    pub path: String,
    pub mode: DataMode,
    pub transfer_type: TransferType,
}

pub struct TransferJobView {
    pub kind: TransferKind,
    pub path: Seq<char>,
    pub mode: DataMode,
    pub transfer_type: TransferType,
}

impl View for TransferJob {
    type V = TransferJobView;

    open spec fn view(&self) -> TransferJobView {
        TransferJobView {
            kind: self.kind,
            path: self.path@,
            mode: self.mode,
            transfer_type: self.transfer_type,
        }
    }
}

/// What the connection's owner is to do after a command.
pub enum Action {
    /// Send the reply and read the next command.
    Reply(Reply),
    /// Send the reply and close the control connection.
    Close(Reply),
    /// Check that the directory at this path is one, then report it with
    /// `change_dir_done`.
    ChangeDir(String),
    /// Open a listener for a passive data connection (extended when `true`),
    /// then report it with `listen_done`.
    OpenPassive(bool),
    /// Send the preliminary reply of a transfer, run it, then report it with
    /// `transfer_done`.
    Transfer(TransferJob),
    /// Rename the file at the first path to the second, then report it with
    /// `rename_done`.
    Rename(String, String),
}

pub enum ActionView {
    Reply(ReplyView),
    Close(ReplyView),
    ChangeDir(Seq<char>),
    OpenPassive(bool),
    Transfer(TransferJobView),
    Rename(Seq<char>, Seq<char>),
}

impl View for Action {
    type V = ActionView;

    open spec fn view(&self) -> ActionView {
        match self {
            Action::Reply(r) => ActionView::Reply(r@),
            Action::Close(r) => ActionView::Close(r@),
            Action::ChangeDir(p) => ActionView::ChangeDir(p@),
            Action::OpenPassive(e) => ActionView::OpenPassive(*e),
            Action::Transfer(j) => ActionView::Transfer(j@),
            Action::Rename(a, b) => ActionView::Rename(a@, b@),
        }
    }
}

/// The outside work that a session waits on.
pub enum Pending {
    Idle,
    ChangeDir(Vec<String>),
    Listen(bool),
    Transfer,
    Rename,
}

pub enum PendingView {
    Idle,
    ChangeDir(Seq<Seq<char>>),
    Listen(bool),
    Transfer,
    Rename,
}

impl View for Pending {
    type V = PendingView;

    open spec fn view(&self) -> PendingView {
        match self {
            Pending::Idle => PendingView::Idle,
            Pending::ChangeDir(p) => PendingView::ChangeDir(names_view(p@)),
            Pending::Listen(e) => PendingView::Listen(*e),
            Pending::Transfer => PendingView::Transfer,
            Pending::Rename => PendingView::Rename,
        }
    }
}

/// The account a session acts for; its root is the directory that the
/// session is confined to.
pub struct SessionUser {
    pub username: String,
    pub password: String,
    pub root: String,
}

impl View for SessionUser {
    type V = UserView;

    open spec fn view(&self) -> UserView {
        UserView { username: self.username@, password: self.password@, root: self.root@ }
    }
}

impl SessionUser {
    pub fn new() -> (r: SessionUser)
        ensures
            r@ == empty_user(),
    {
        SessionUser { username: String::new(), password: String::new(), root: String::new() }
    }
}

/// One client's control connection and all that it has set up.
pub struct Session {
    pub id: usize,
    user: SessionUser,
    auth: AuthState,
    cwd: Vec<String>,
    transfer_type: TransferType,
    data_mode: DataMode,
    rename_from: Option<Vec<String>>,
    pending: Pending,
    closed: bool,
}

pub struct SessionView {
    pub id: usize,
    pub user: UserView,
    pub auth: AuthState,
    pub cwd: Seq<Seq<char>>,
    pub transfer_type: TransferType,
    pub data_mode: DataMode,
    pub rename_from: Option<Seq<Seq<char>>>,
    pub pending: PendingView,
    pub closed: bool,
}

pub open spec fn opt_names(o: Option<Vec<String>>) -> Option<Seq<Seq<char>>> {
    match o {
        Some(p) => Some(names_view(p@)),
        None => None,
    }
}

impl View for Session {
    type V = SessionView;

    closed spec fn view(&self) -> SessionView {
        SessionView {
            id: self.id,
            user: self.user@,
            auth: self.auth,
            cwd: names_view(self.cwd@),
            transfer_type: self.transfer_type,
            data_mode: self.data_mode,
            rename_from: opt_names(self.rename_from),
            pending: self.pending@,
            closed: self.closed,
        }
    }
}

/// The longest control line that is read as a command.
pub const MAX_LINE: usize = 512;

/// The state a session keeps whatever happens: its directories stay below
/// the root, and a rename source, a pending operation and a data mode exist
/// only once the client has logged in.
pub open spec fn wf(s: SessionView) -> bool {
    &&& proper_path(s.cwd)
    &&& (s.rename_from matches Some(p) ==> proper_path(p) && s.auth == AuthState::Authenticated)
    &&& (s.pending matches PendingView::ChangeDir(p) ==> proper_path(p))
    &&& (s.pending !is Idle ==> s.auth == AuthState::Authenticated)
    &&& (s.data_mode !is NoMode ==> s.auth == AuthState::Authenticated)
}

/// A reply with the code's own text.
pub open spec fn reply(code: StatusCode) -> ReplyView {
    ReplyView { code, text: message_of(code) }
}

pub open spec fn say(code: StatusCode) -> ActionView {
    ActionView::Reply(reply(code))
}

/// The place on disk of the path `p` below the root `root`.
pub open spec fn fs_path(root: Seq<char>, p: Seq<Seq<char>>) -> Seq<char> {
    root + display_path(p)
}

/// The commands that move data over a data connection.
pub open spec fn is_transfer(c: Cmd) -> bool {
    ||| c == Cmd::Retrieve
    ||| c == Cmd::AcceptAndStore
    ||| c == Cmd::StoreFile
    ||| c == Cmd::Append
    ||| c == Cmd::List
    ||| c == Cmd::FileNames
    ||| c == Cmd::ListDir
}

pub open spec fn transfer_kind(c: Cmd) -> TransferKind {
    if c == Cmd::Retrieve {
        TransferKind::Retrieve
    } else if c == Cmd::AcceptAndStore {
        TransferKind::Store
    } else if c == Cmd::StoreFile {
        TransferKind::StoreUnique
    } else if c == Cmd::Append {
        TransferKind::Append
    } else if c == Cmd::List {
        TransferKind::List
    } else if c == Cmd::FileNames {
        TransferKind::NameList
    } else {
        TransferKind::MachineList
    }
}

/// The transfers that name a file and cannot go without one.
pub open spec fn needs_path(k: TransferKind) -> bool {
    k == TransferKind::Retrieve || k == TransferKind::Store || k == TransferKind::Append
}

/// The first account with this name and password.
pub open spec fn find_account(users: Seq<UserView>, name: Seq<char>, pw: Seq<char>) -> Option<
    UserView,
>
    decreases users.len(),
{
    if users.len() == 0 {
        None
    } else if users[0].username == name && users[0].password == pw {
        Some(users[0])
    } else {
        find_account(users.drop_first(), name, pw)
    }
}

pub open spec fn pwd_text(cwd: Seq<Seq<char>>) -> Seq<char> {
    "\""@ + display_path(cwd) + "\" is the current directory."@
}

pub open spec fn user_step(s: SessionView, arg: Seq<char>) -> (SessionView, ActionView) {
    if arg.len() == 0 {
        (s, say(StatusCode::SyntaxError))
    } else {
        (
            SessionView {
                auth: AuthState::UsernameGiven,
                user: UserView { username: arg, password: Seq::empty(), root: Seq::empty() },
                cwd: Seq::empty(),
                data_mode: DataMode::NoMode,
                ..s
            },
            say(StatusCode::UsernameOk),
        )
    }
}

pub open spec fn pass_step(s: SessionView, arg: Seq<char>, conf: ConfView) -> (
    SessionView,
    ActionView,
) {
    if s.auth != AuthState::UsernameGiven {
        (s, say(StatusCode::BadSequence))
    } else {
        match find_account(conf.users, s.user.username, arg) {
            Some(u) => (
                SessionView {
                    auth: AuthState::Authenticated,
                    user: UserView {
                        username: u.username,
                        password: u.password,
                        root: conf.root + u.root,
                    },
                    cwd: Seq::empty(),
                    ..s
                },
                say(StatusCode::UserLoggedIn),
            ),
            None => (
                SessionView { auth: AuthState::Unauthenticated, user: empty_user(), ..s },
                say(StatusCode::InvalidUsername),
            ),
        }
    }
}

pub open spec fn cwd_step(s: SessionView, arg: Seq<char>) -> (SessionView, ActionView) {
    if arg.len() == 0 {
        (s, say(StatusCode::SyntaxError))
    } else {
        match resolve(s.cwd, arg) {
            None => (s, say(StatusCode::FileNotFound)),
            Some(p) => (
                SessionView { pending: PendingView::ChangeDir(p), ..s },
                ActionView::ChangeDir(fs_path(s.user.root, p)),
            ),
        }
    }
}

/// The reply to a setting with one accepted value.
pub open spec fn setting_code(arg: Seq<char>, accepted: Seq<char>) -> StatusCode {
    if arg.len() == 0 {
        StatusCode::SyntaxError
    } else if same_word(arg, accepted) {
        StatusCode::OK
    } else {
        StatusCode::CmdNotImplementedForParam
    }
}

pub open spec fn type_step(s: SessionView, arg: Seq<char>) -> (SessionView, ActionView) {
    if arg.len() == 0 {
        (s, say(StatusCode::SyntaxError))
    } else if same_word(arg, "A"@) || same_word(arg, "A N"@) {
        (SessionView { transfer_type: TransferType::Ascii, ..s }, say(StatusCode::OK))
    } else if same_word(arg, "I"@) || same_word(arg, "L 8"@) {
        (SessionView { transfer_type: TransferType::Binary, ..s }, say(StatusCode::OK))
    } else {
        (s, say(StatusCode::CmdNotImplementedForParam))
    }
}

pub open spec fn transfer_step(s: SessionView, k: TransferKind, arg: Seq<char>) -> (
    SessionView,
    ActionView,
) {
    if s.data_mode is NoMode {
        (s, say(StatusCode::BadSequence))
    } else if arg.len() == 0 && needs_path(k) {
        (s, say(StatusCode::SyntaxError))
    } else {
        match resolve(s.cwd, arg) {
            None => (s, say(StatusCode::FileNotFound)),
            Some(p) => (
                SessionView { pending: PendingView::Transfer, ..s },
                ActionView::Transfer(
                    TransferJobView {
                        kind: k,
                        path: fs_path(s.user.root, p),
                        mode: s.data_mode,
                        transfer_type: s.transfer_type,
                    },
                ),
            ),
        }
    }
}

pub open spec fn rnfr_step(s: SessionView, arg: Seq<char>) -> (SessionView, ActionView) {
    if arg.len() == 0 {
        (s, say(StatusCode::SyntaxError))
    } else {
        match resolve(s.cwd, arg) {
            None => (s, say(StatusCode::FileNotFound)),
            Some(p) => (
                SessionView { rename_from: Some(p), ..s },
                say(StatusCode::RequestedFileAction),
            ),
        }
    }
}

pub open spec fn rnto_step(s: SessionView, from: Seq<Seq<char>>, arg: Seq<char>) -> (
    SessionView,
    ActionView,
) {
    if arg.len() == 0 {
        (s, say(StatusCode::SyntaxError))
    } else {
        match resolve(s.cwd, arg) {
            None => (s, say(StatusCode::RequestedActionNotTaken)),
            Some(to) => (
                SessionView { pending: PendingView::Rename, ..s },
                ActionView::Rename(fs_path(s.user.root, from), fs_path(s.user.root, to)),
            ),
        }
    }
}

/// A command of a logged-in client.
pub open spec fn logged_in_step(s: SessionView, cmd: Cmd, arg: Seq<char>) -> (
    SessionView,
    ActionView,
) {
    if cmd == Cmd::PrintDir || cmd == Cmd::PrintCurDir {
        (s, ActionView::Reply(ReplyView { code: StatusCode::PathCreated, text: pwd_text(s.cwd) }))
    } else if cmd == Cmd::ChangeDir || cmd == Cmd::ChangeTheDir {
        cwd_step(s, arg)
    } else if cmd == Cmd::ChangeParent || cmd == Cmd::ChangeToParentDir {
        cwd_step(s, ".."@)
    } else if cmd == Cmd::Type {
        type_step(s, arg)
    } else if cmd == Cmd::Mode {
        (s, say(setting_code(arg, "S"@)))
    } else if cmd == Cmd::FileStruct {
        (s, say(setting_code(arg, "F"@)))
    } else if cmd == Cmd::Port {
        match port_args(arg) {
            Some(hp) => (SessionView { data_mode: DataMode::Active(hp), ..s }, say(StatusCode::OK)),
            None => (s, say(StatusCode::SyntaxError)),
        }
    } else if cmd == Cmd::ExtAddrPort {
        match eprt_args(arg) {
            Ok(hp) => (SessionView { data_mode: DataMode::Active(hp), ..s }, say(StatusCode::OK)),
            Err(EprtError::Malformed) => (s, say(StatusCode::SyntaxError)),
            Err(EprtError::UnknownProtocol) => (s, say(StatusCode::ExtPortUnknownProtocol)),
        }
    } else if cmd == Cmd::Passive || cmd == Cmd::ExtPassvMode {
        let ext = cmd == Cmd::ExtPassvMode;
        (
            SessionView { data_mode: DataMode::NoMode, pending: PendingView::Listen(ext), ..s },
            ActionView::OpenPassive(ext),
        )
    } else if cmd == Cmd::Abort {
        (SessionView { data_mode: DataMode::NoMode, ..s }, say(StatusCode::ClosingDataConn))
    } else if cmd == Cmd::RenameFrom {
        rnfr_step(s, arg)
    } else if is_transfer(cmd) {
        transfer_step(s, transfer_kind(cmd), arg)
    } else {
        (s, say(StatusCode::CmdNotImplemented))
    }
}

/// The session's next state and what is to be done, for the command `cmd`
/// with the argument `arg`. Every command forgets a rename source but RNFR,
/// which sets one, and RNTO, which uses it.
pub open spec fn next(s: SessionView, cmd: Cmd, arg: Seq<char>, conf: ConfView) -> (
    SessionView,
    ActionView,
) {
    let s0 = SessionView { rename_from: None, pending: PendingView::Idle, ..s };
    if cmd == Cmd::User {
        user_step(s0, arg)
    } else if cmd == Cmd::Password {
        pass_step(s0, arg, conf)
    } else if cmd == Cmd::Quit {
        (SessionView { closed: true, ..s0 }, ActionView::Close(reply(StatusCode::ClosingControlConn)))
    } else if cmd == Cmd::Noop {
        (s0, say(StatusCode::OK))
    } else if cmd == Cmd::SystemType {
        (s0, ActionView::Reply(ReplyView { code: StatusCode::NameSystem, text: "UNIX Type: L8"@ }))
    } else if cmd == Cmd::FeatList {
        (s0, say(StatusCode::SystemStatus))
    } else if cmd == Cmd::Help {
        (s0, say(StatusCode::HelpMessage))
    } else if cmd == Cmd::RenameTo {
        match s.rename_from {
            None => (s0, say(StatusCode::BadSequence)),
            Some(from) => rnto_step(s0, from, arg),
        }
    } else if s.auth != AuthState::Authenticated {
        (s0, say(StatusCode::NotLoggedIn))
    } else {
        logged_in_step(s0, cmd, arg)
    }
}


/// A fresh session's state: nobody logged in, at the root, ASCII, no data
/// connection set up.
pub open spec fn initial(id: usize) -> SessionView {
    SessionView {
        id,
        user: empty_user(),
        auth: AuthState::Unauthenticated,
        cwd: Seq::empty(),
        transfer_type: TransferType::Ascii,
        data_mode: DataMode::NoMode,
        rename_from: None,
        pending: PendingView::Idle,
        closed: false,
    }
}

/// The line that carries a reply: its code, a space, its text.
pub open spec fn reply_line(r: ReplyView) -> Seq<char> {
    decimal(code_of(r.code) as nat) + " "@ + r.text
}

proof fn lemma_code_positive(c: StatusCode)
    ensures
        100 <= code_of(c) < 1000,
{
}

impl Reply {
    /// A reply with the code's own text.
    pub fn of(code: StatusCode) -> (r: Reply)
        ensures
            r@ == reply(code),
    {
        Reply { code, text: code.message().to_owned() }
    }

    /// The line that carries this reply, without its line break.
    pub fn line(&self) -> (r: String)
        ensures
            r@ == reply_line(self@),
    {
        proof {
            lemma_code_positive(self.code);
        }
        let mut s = String::new();
        push_decimal(&mut s, self.code.code() as u32);
        push_str(&mut s, " ");
        push_str(&mut s, self.text.as_str());
        assert(s@ =~= reply_line(self@));
        s
    }
}

/// The index of the first account with this name and password.
fn find_account_index(users: &Vec<User>, name: &String, pw: &str) -> (r: Option<usize>)
    ensures
        match r {
            Some(i) => i < users@.len() && find_account(users_view(users@), name@, pw@) == Some(
                users@[i as int]@,
            ),
            None => find_account(users_view(users@), name@, pw@) is None,
        },
{
    let ghost all = users_view(users@);
    let pw_s = pw.to_owned();
    let mut i: usize = 0;
    assert(all.skip(0) =~= all);
    while i < users.len()
        invariant
            i <= users@.len(),
            all == users_view(users@),
            pw_s@ == pw@,
            find_account(all, name@, pw@) == find_account(all.skip(i as int), name@, pw@),
        decreases users@.len() - i,
    {
        assert(all.skip(i as int)[0] == users@[i as int]@);
        if users[i].username == *name && users[i].password == pw_s {
            return Some(i);
        }
        assert(all.skip(i as int).drop_first() =~= all.skip(i + 1));
        i += 1;
    }
    None
}

impl Session {
    /// A session with the id `id`, before the greeting.
    pub fn new(id: usize) -> (r: Session)
        ensures
            r@ == initial(id),
            wf(r@),
    {
        let r = Session {
            id,
            user: SessionUser::new(),
            auth: AuthState::Unauthenticated,
            cwd: Vec::new(),
            transfer_type: TransferType::Ascii,
            data_mode: DataMode::NoMode,
            rename_from: None,
            pending: Pending::Idle,
            closed: false,
        };
        assert(r@.cwd =~= Seq::<Seq<char>>::empty());
        r
    }

    /// The greeting that opens the session.
    pub fn start(&self) -> (r: Reply)
        ensures
            r@ == reply(StatusCode::ServiceReady),
    {
        Reply::of(StatusCode::ServiceReady)
    }

    /// Ends the session for a server that shuts down: the reply says that
    /// the service is no longer available.
    pub fn end(&mut self) -> (r: Reply)
        requires
            wf(old(self)@),
        ensures
            final(self)@ == (SessionView { closed: true, ..old(self)@ }),
            wf(final(self)@),
            r@ == reply(StatusCode::ServiceNotAvailable),
    {
        self.closed = true;
        Reply::of(StatusCode::ServiceNotAvailable)
    }

    /// Ends the session at the client's request.
    pub fn quit(&mut self) -> (r: Reply)
        requires
            wf(old(self)@),
        ensures
            final(self)@ == (SessionView { closed: true, ..old(self)@ }),
            wf(final(self)@),
            r@ == reply(StatusCode::ClosingControlConn),
    {
        self.closed = true;
        Reply::of(StatusCode::ClosingControlConn)
    }

    /// The place on disk of the path `p` below this session's root.
    fn fs_path_of(&self, p: &Vec<String>) -> (r: String)
        ensures
            r@ == fs_path(self@.user.root, names_view(p@)),
    {
        let mut r = self.user.root.clone();
        let t = path_text(p);
        push_str(&mut r, t.as_str());
        r
    }

    fn user_cmd(&mut self, arg: &str) -> (r: Action)
        ensures
            (final(self)@, r@) == user_step(old(self)@, arg@),
    {
        if arg.is_empty() {
            return Action::Reply(Reply::of(StatusCode::SyntaxError));
        }
        self.auth = AuthState::UsernameGiven;
        self.user = SessionUser { username: arg.to_owned(), password: String::new(), root: String::new() };
        self.cwd = Vec::new();
        self.data_mode = DataMode::NoMode;
        assert(self@.cwd =~= Seq::<Seq<char>>::empty());
        Action::Reply(Reply::of(StatusCode::UsernameOk))
    }

    fn pass_cmd(&mut self, arg: &str, conf: &Conf) -> (r: Action)
        ensures
            (final(self)@, r@) == pass_step(old(self)@, arg@, conf@),
    {
        if self.auth != AuthState::UsernameGiven {
            return Action::Reply(Reply::of(StatusCode::BadSequence));
        }
        match find_account_index(&conf.users, &self.user.username, arg) {
            Some(i) => {
                let u = &conf.users[i];
                let mut root = conf.root.clone();
                push_str(&mut root, u.root.as_str());
                self.user = SessionUser {
                    username: u.username.clone(),
                    password: u.password.clone(),
                    root,
                };
                self.auth = AuthState::Authenticated;
                self.cwd = Vec::new();
                assert(self@.cwd =~= Seq::<Seq<char>>::empty());
                Action::Reply(Reply::of(StatusCode::UserLoggedIn))
            },
            None => {
                self.user = SessionUser::new();
                self.auth = AuthState::Unauthenticated;
                Action::Reply(Reply::of(StatusCode::InvalidUsername))
            },
        }
    }

    fn cwd_cmd(&mut self, arg: &str) -> (r: Action)
        requires
            wf(old(self)@),
        ensures
            (final(self)@, r@) == cwd_step(old(self)@, arg@),
    {
        if arg.is_empty() {
            return Action::Reply(Reply::of(StatusCode::SyntaxError));
        }
        match resolve_path(&self.cwd, arg) {
            None => Action::Reply(Reply::of(StatusCode::FileNotFound)),
            Some(p) => {
                let fs = self.fs_path_of(&p);
                self.pending = Pending::ChangeDir(p);
                Action::ChangeDir(fs)
            },
        }
    }

    fn type_cmd(&mut self, arg: &str) -> (r: Action)
        ensures
            (final(self)@, r@) == type_step(old(self)@, arg@),
    {
        let v = chars_of(arg);
        if v.len() == 0 {
            return Action::Reply(Reply::of(StatusCode::SyntaxError));
        }
        if same_word_chars(&v, "A") || same_word_chars(&v, "A N") {
            self.transfer_type = TransferType::Ascii;
            Action::Reply(Reply::of(StatusCode::OK))
        } else if same_word_chars(&v, "I") || same_word_chars(&v, "L 8") {
            self.transfer_type = TransferType::Binary;
            Action::Reply(Reply::of(StatusCode::OK))
        } else {
            Action::Reply(Reply::of(StatusCode::CmdNotImplementedForParam))
        }
    }

    fn transfer_cmd(&mut self, k: TransferKind, arg: &str) -> (r: Action)
        requires
            wf(old(self)@),
        ensures
            (final(self)@, r@) == transfer_step(old(self)@, k, arg@),
    {
        if self.data_mode == DataMode::NoMode {
            return Action::Reply(Reply::of(StatusCode::BadSequence));
        }
        let needs = k == TransferKind::Retrieve || k == TransferKind::Store || k
            == TransferKind::Append;
        if arg.is_empty() && needs {
            return Action::Reply(Reply::of(StatusCode::SyntaxError));
        }
        match resolve_path(&self.cwd, arg) {
            None => Action::Reply(Reply::of(StatusCode::FileNotFound)),
            Some(p) => {
                let path = self.fs_path_of(&p);
                self.pending = Pending::Transfer;
                Action::Transfer(
                    TransferJob {
                        kind: k,
                        path,
                        mode: self.data_mode,
                        transfer_type: self.transfer_type,
                    },
                )
            },
        }
    }

    fn rnfr_cmd(&mut self, arg: &str) -> (r: Action)
        requires
            wf(old(self)@),
        ensures
            (final(self)@, r@) == rnfr_step(old(self)@, arg@),
    {
        if arg.is_empty() {
            return Action::Reply(Reply::of(StatusCode::SyntaxError));
        }
        match resolve_path(&self.cwd, arg) {
            None => Action::Reply(Reply::of(StatusCode::FileNotFound)),
            Some(p) => {
                self.rename_from = Some(p);
                Action::Reply(Reply::of(StatusCode::RequestedFileAction))
            },
        }
    }

    fn rnto_cmd(&mut self, from: Vec<String>, arg: &str) -> (r: Action)
        requires
            wf(old(self)@),
        ensures
            (final(self)@, r@) == rnto_step(old(self)@, names_view(from@), arg@),
    {
        if arg.is_empty() {
            return Action::Reply(Reply::of(StatusCode::SyntaxError));
        }
        match resolve_path(&self.cwd, arg) {
            None => Action::Reply(Reply::of(StatusCode::RequestedActionNotTaken)),
            Some(to) => {
                let a = self.fs_path_of(&from);
                let b = self.fs_path_of(&to);
                self.pending = Pending::Rename;
                Action::Rename(a, b)
            },
        }
    }

    fn logged_in_cmd(&mut self, cmd: Cmd, arg: &str) -> (r: Action)
        requires
            wf(old(self)@),
        ensures
            (final(self)@, r@) == logged_in_step(old(self)@, cmd, arg@),
    {
        match cmd {
            Cmd::PrintDir | Cmd::PrintCurDir => {
                let mut t = String::new();
                push_str(&mut t, "\"");
                let p = path_text(&self.cwd);
                push_str(&mut t, p.as_str());
                push_str(&mut t, "\" is the current directory.");
                assert(t@ =~= pwd_text(self@.cwd));
                Action::Reply(Reply { code: StatusCode::PathCreated, text: t })
            },
            Cmd::ChangeDir | Cmd::ChangeTheDir => self.cwd_cmd(arg),
            Cmd::ChangeParent | Cmd::ChangeToParentDir => self.cwd_cmd(".."),
            Cmd::Type => self.type_cmd(arg),
            Cmd::Mode => Action::Reply(Reply::of(setting(arg, "S"))),
            Cmd::FileStruct => Action::Reply(Reply::of(setting(arg, "F"))),
            Cmd::Port => match parse_port_args(arg) {
                Some(hp) => {
                    self.data_mode = DataMode::Active(hp);
                    Action::Reply(Reply::of(StatusCode::OK))
                },
                None => Action::Reply(Reply::of(StatusCode::SyntaxError)),
            },
            Cmd::ExtAddrPort => match parse_eprt_args(arg) {
                Ok(hp) => {
                    self.data_mode = DataMode::Active(hp);
                    Action::Reply(Reply::of(StatusCode::OK))
                },
                Err(EprtError::Malformed) => Action::Reply(Reply::of(StatusCode::SyntaxError)),
                Err(EprtError::UnknownProtocol) => Action::Reply(
                    Reply::of(StatusCode::ExtPortUnknownProtocol),
                ),
            },
            Cmd::Passive | Cmd::ExtPassvMode => {
                let ext = cmd == Cmd::ExtPassvMode;
                self.data_mode = DataMode::NoMode;
                self.pending = Pending::Listen(ext);
                Action::OpenPassive(ext)
            },
            Cmd::Abort => {
                self.data_mode = DataMode::NoMode;
                Action::Reply(Reply::of(StatusCode::ClosingDataConn))
            },
            Cmd::RenameFrom => self.rnfr_cmd(arg),
            Cmd::Retrieve => self.transfer_cmd(TransferKind::Retrieve, arg),
            Cmd::AcceptAndStore => self.transfer_cmd(TransferKind::Store, arg),
            Cmd::StoreFile => self.transfer_cmd(TransferKind::StoreUnique, arg),
            Cmd::Append => self.transfer_cmd(TransferKind::Append, arg),
            Cmd::List => self.transfer_cmd(TransferKind::List, arg),
            Cmd::FileNames => self.transfer_cmd(TransferKind::NameList, arg),
            Cmd::ListDir => self.transfer_cmd(TransferKind::MachineList, arg),
            _ => Action::Reply(Reply::of(StatusCode::CmdNotImplemented)),
        }
    }

    /// Runs the command `cmd` with the argument `arg` against the accounts
    /// of `conf`.
    pub fn handle_command(&mut self, cmd: Cmd, arg: &str, conf: &Conf) -> (r: Action)
        requires
            wf(old(self)@),
        ensures
            wf(final(self)@),
            (final(self)@, r@) == next(old(self)@, cmd, arg@, conf@),
    {
        let from = self.rename_from.take();
        self.pending = Pending::Idle;
        let r = match cmd {
            Cmd::User => self.user_cmd(arg),
            Cmd::Password => self.pass_cmd(arg, conf),
            Cmd::Quit => {
                self.closed = true;
                Action::Close(Reply::of(StatusCode::ClosingControlConn))
            },
            Cmd::Noop => Action::Reply(Reply::of(StatusCode::OK)),
            Cmd::SystemType => Action::Reply(
                Reply { code: StatusCode::NameSystem, text: "UNIX Type: L8".to_owned() },
            ),
            Cmd::FeatList => Action::Reply(Reply::of(StatusCode::SystemStatus)),
            Cmd::Help => Action::Reply(Reply::of(StatusCode::HelpMessage)),
            Cmd::RenameTo => match from {
                None => Action::Reply(Reply::of(StatusCode::BadSequence)),
                Some(p) => self.rnto_cmd(p, arg),
            },
            _ => {
                if self.auth != AuthState::Authenticated {
                    Action::Reply(Reply::of(StatusCode::NotLoggedIn))
                } else {
                    self.logged_in_cmd(cmd, arg)
                }
            },
        };
        proof {
            lemma_next_wf(old(self)@, cmd, arg@, conf@);
        }
        r
    }
}

/// Every command keeps a session well formed: in particular its working
/// directory never leaves the root.
pub proof fn lemma_next_wf(s: SessionView, cmd: Cmd, arg: Seq<char>, conf: ConfView)
    requires
        wf(s),
    ensures
        wf(next(s, cmd, arg, conf).0),
{
    assert(proper_path(Seq::<Seq<char>>::empty()));
    lemma_resolve_proper(s.cwd, arg);
    lemma_resolve_proper(s.cwd, ".."@);
}

/// The reply to a setting whose one accepted value is `accepted`.
fn setting(arg: &str, accepted: &str) -> (r: StatusCode)
    ensures
        r == setting_code(arg@, accepted@),
{
    let v = chars_of(arg);
    if v.len() == 0 {
        StatusCode::SyntaxError
    } else if same_word_chars(&v, accepted) {
        StatusCode::OK
    } else {
        StatusCode::CmdNotImplementedForParam
    }
}


/// A session that forgets its rename source and any pending work.
pub open spec fn cleared(s: SessionView) -> SessionView {
    SessionView { rename_from: None, pending: PendingView::Idle, ..s }
}

/// The command token of a control line: what stands before its first space,
/// once the line is trimmed.
pub open spec fn command_token(line: Seq<char>) -> Seq<char> {
    before_char(trim(line), ' ')
}

/// The argument of a control line: what stands after the first space of the
/// trimmed line, possibly nothing.
pub open spec fn command_arg(line: Seq<char>) -> Seq<char> {
    after_char(trim(line), ' ')
}

pub open spec fn cwd_done(s: SessionView, is_dir: bool) -> (SessionView, ReplyView) {
    match s.pending {
        PendingView::ChangeDir(p) => if is_dir {
            (SessionView { cwd: p, pending: PendingView::Idle, ..s }, reply(StatusCode::RequestedFileOk))
        } else {
            (SessionView { pending: PendingView::Idle, ..s }, reply(StatusCode::FileNotFound))
        },
        _ => (s, reply(StatusCode::BadSequence)),
    }
}

pub open spec fn listen_done(s: SessionView, bound: Option<HostPort>) -> (SessionView, ReplyView) {
    match s.pending {
        PendingView::Listen(ext) => match bound {
            Some(hp) => (
                SessionView { data_mode: DataMode::Passive(hp), pending: PendingView::Idle, ..s },
                if ext {
                    ReplyView { code: StatusCode::EnterExtPassMode, text: ext_passive_text(hp.port) }
                } else {
                    ReplyView { code: StatusCode::EnterPassMode, text: passive_text(hp) }
                },
            ),
            None => (
                SessionView { pending: PendingView::Idle, ..s },
                reply(StatusCode::CantOpenDataConn),
            ),
        },
        _ => (s, reply(StatusCode::BadSequence)),
    }
}

/// The reply that closes a transfer that ended with `o`.
pub open spec fn outcome_code(o: TransferOutcome) -> StatusCode {
    match o {
        TransferOutcome::NoConnection => StatusCode::CantOpenDataConn,
        TransferOutcome::Completed => StatusCode::ClosingDataConn,
        TransferOutcome::LocalError => StatusCode::ActionAborted,
        TransferOutcome::FileError => StatusCode::FileNotFound,
        TransferOutcome::Aborted => StatusCode::ConnClosed,
    }
}

/// A transfer that ended, however it ended, leaves no data connection set
/// up: the next one must be set up again.
pub open spec fn transfer_end(s: SessionView, o: TransferOutcome) -> (SessionView, ReplyView) {
    match s.pending {
        PendingView::Transfer => (
            SessionView { data_mode: DataMode::NoMode, pending: PendingView::Idle, ..s },
            reply(outcome_code(o)),
        ),
        _ => (s, reply(StatusCode::BadSequence)),
    }
}

pub open spec fn rename_end(s: SessionView, ok: bool) -> (SessionView, ReplyView) {
    match s.pending {
        PendingView::Rename => (
            SessionView { pending: PendingView::Idle, ..s },
            reply(
                if ok {
                    StatusCode::RequestedFileOk
                } else {
                    StatusCode::FileNotFound
                },
            ),
        ),
        _ => (s, reply(StatusCode::BadSequence)),
    }
}

impl Session {
    pub fn is_closed(&self) -> (r: bool)
        ensures
            r == self@.closed,
    {
        self.closed
    }

    pub fn auth(&self) -> (r: AuthState)
        ensures
            r == self@.auth,
    {
        self.auth
    }

    pub fn data_mode(&self) -> (r: DataMode)
        ensures
            r == self@.data_mode,
    {
        self.data_mode
    }

    pub fn transfer_type(&self) -> (r: TransferType)
        ensures
            r == self@.transfer_type,
    {
        self.transfer_type
    }

    pub fn has_rename_source(&self) -> (r: bool)
        ensures
            r == self@.rename_from is Some,
    {
        self.rename_from.is_some()
    }

    /// The name the client gave, or logged in with.
    pub fn username(&self) -> (r: &String)
        ensures
            r@ == self@.user.username,
    {
        &self.user.username
    }

    /// The working directory as the client sees it.
    pub fn cwd_text(&self) -> (r: String)
        ensures
            r@ == display_path(self@.cwd),
    {
        path_text(&self.cwd)
    }

    /// Reads one control line and runs the command it holds.
    pub fn handle_line(&mut self, line: &str, conf: &Conf) -> (r: Action)
        requires
            wf(old(self)@),
        ensures
            wf(final(self)@),
            line@.len() > MAX_LINE ==> final(self)@ == cleared(old(self)@) && r@ == say(
                StatusCode::SyntaxError,
            ),
            line@.len() <= MAX_LINE && (forall|c: Cmd|
                !same_word(command_token(line@), #[trigger] token_of(c))) ==> final(self)@
                == cleared(old(self)@) && r@ == say(StatusCode::CmdNotImplemented),
            line@.len() <= MAX_LINE && (exists|c: Cmd|
                same_word(command_token(line@), #[trigger] token_of(c))) ==> exists|c: Cmd|
                same_word(command_token(line@), #[trigger] token_of(c)) && (final(self)@, r@)
                    == next(old(self)@, c, command_arg(line@), conf@),
    {
        let v = chars_of(line);
        if v.len() > MAX_LINE {
            self.rename_from = None;
            self.pending = Pending::Idle;
            return Action::Reply(Reply::of(StatusCode::SyntaxError));
        }
        let t = trim_chars(&v);
        let n = t.len();
        let (tok, arg) = match find_char(&t, ' ') {
            Some(k) => (slice_of(&t, 0, k), slice_of(&t, k + 1, n)),
            None => (t.clone(), Vec::new()),
        };
        assert(tok@ =~= command_token(line@));
        assert(arg@ =~= command_arg(line@));
        let tok_s = string_of(&tok);
        let arg_s = string_of(&arg);
        match Cmd::parse(tok_s.as_str()) {
            Some(c) => self.handle_command(c, arg_s.as_str(), conf),
            None => {
                self.rename_from = None;
                self.pending = Pending::Idle;
                Action::Reply(Reply::of(StatusCode::CmdNotImplemented))
            },
        }
    }

    /// Reports whether the directory of the pending CWD is one.
    pub fn change_dir_done(&mut self, is_dir: bool) -> (r: Reply)
        requires
            wf(old(self)@),
        ensures
            wf(final(self)@),
            (final(self)@, r@) == cwd_done(old(self)@, is_dir),
    {
        let mut taken = Pending::Idle;
        std::mem::swap(&mut self.pending, &mut taken);
        match taken {
            Pending::ChangeDir(p) => {
                if is_dir {
                    self.cwd = p;
                    Reply::of(StatusCode::RequestedFileOk)
                } else {
                    Reply::of(StatusCode::FileNotFound)
                }
            },
            other => {
                self.pending = other;
                Reply::of(StatusCode::BadSequence)
            },
        }
    }

    /// Reports the listener of a pending PASV or EPSV: where it listens, or
    /// `None` where none could be opened.
    pub fn listen_done(&mut self, bound: Option<HostPort>) -> (r: Reply)
        requires
            wf(old(self)@),
        ensures
            wf(final(self)@),
            (final(self)@, r@) == listen_done(old(self)@, bound),
    {
        let ext = match self.pending {
            Pending::Listen(e) => e,
            _ => {
                return Reply::of(StatusCode::BadSequence);
            },
        };
        self.pending = Pending::Idle;
        match bound {
            Some(hp) => {
                self.data_mode = DataMode::Passive(hp);
                if ext {
                    Reply { code: StatusCode::EnterExtPassMode, text: ext_passive_reply_text(hp.port) }
                } else {
                    Reply { code: StatusCode::EnterPassMode, text: passive_reply_text(hp) }
                }
            },
            None => Reply::of(StatusCode::CantOpenDataConn),
        }
    }

    /// The preliminary reply of a transfer, sent before its data moves.
    pub fn transfer_opening(&self) -> (r: Reply)
        ensures
            r@ == reply(StatusCode::FileStatusOk),
    {
        Reply::of(StatusCode::FileStatusOk)
    }

    /// Reports how the pending transfer ended.
    pub fn transfer_done(&mut self, outcome: TransferOutcome) -> (r: Reply)
        requires
            wf(old(self)@),
        ensures
            wf(final(self)@),
            (final(self)@, r@) == transfer_end(old(self)@, outcome),
    {
        match self.pending {
            Pending::Transfer => {},
            _ => {
                return Reply::of(StatusCode::BadSequence);
            },
        }
        self.pending = Pending::Idle;
        self.data_mode = DataMode::NoMode;
        let code = match outcome {
            TransferOutcome::NoConnection => StatusCode::CantOpenDataConn,
            TransferOutcome::Completed => StatusCode::ClosingDataConn,
            TransferOutcome::LocalError => StatusCode::ActionAborted,
            TransferOutcome::FileError => StatusCode::FileNotFound,
            TransferOutcome::Aborted => StatusCode::ConnClosed,
        };
        Reply::of(code)
    }

    /// Reports whether the pending rename was done.
    pub fn rename_done(&mut self, ok: bool) -> (r: Reply)
        requires
            wf(old(self)@),
        ensures
            wf(final(self)@),
            (final(self)@, r@) == rename_end(old(self)@, ok),
    {
        match self.pending {
            Pending::Rename => {},
            _ => {
                return Reply::of(StatusCode::BadSequence);
            },
        }
        self.pending = Pending::Idle;
        Reply::of(if ok {
            StatusCode::RequestedFileOk
        } else {
            StatusCode::FileNotFound
        })
    }
}


broadcast use vstd::std_specs::hash::group_hash_axioms;

/// The live sessions, by id.
pub struct Sessions {
    sessions: HashMap<usize, Session>,
}

impl View for Sessions {
    type V = Map<usize, Session>;

    closed spec fn view(&self) -> Map<usize, Session> {
        self.sessions@
    }
}

impl Sessions {
    pub fn new() -> (r: Sessions)
        ensures
            r@ == Map::<usize, Session>::empty(),
    {
        Sessions { sessions: HashMap::new() }
    }

    /// Registers `session` under its id.
    pub fn add_session(&mut self, session: Session)
        ensures
            final(self)@ == old(self)@.insert(session@.id, session),
    {
        let id = session.id;
        self.sessions.insert(id, session);
    }

    pub fn get_session(&self, session_id: usize) -> (r: Option<&Session>)
        ensures
            match r {
                Some(s) => self@.contains_key(session_id) && self@[session_id] == *s,
                None => !self@.contains_key(session_id),
            },
    {
        self.sessions.get(&session_id)
    }

    pub fn get_session_mut(&mut self, session_id: usize) -> (r: Option<&mut Session>)
        ensures
            match r {
                Some(s) => old(self)@.contains_key(session_id) && old(self)@[session_id] == *s
                    && final(self)@ == old(self)@.insert(session_id, *final(s)),
                None => !old(self)@.contains_key(session_id) && final(self)@ == old(self)@,
            },
    {
        match self.sessions.entry(session_id) {
            std::collections::hash_map::Entry::Occupied(o) => Some(o.into_mut()),
            std::collections::hash_map::Entry::Vacant(_) => None,
        }
    }

    /// Takes the session with this id out of the registry.
    pub fn remove_session(&mut self, session_id: usize) -> (r: Option<Session>)
        ensures
            final(self)@ == old(self)@.remove(session_id),
            match r {
                Some(s) => old(self)@.contains_key(session_id) && old(self)@[session_id] == s,
                None => !old(self)@.contains_key(session_id),
            },
    {
        self.sessions.remove(&session_id)
    }

    /// The ids of the live sessions, each once, in no particular order.
    pub fn ids(&self) -> (r: Vec<usize>)
        ensures
            r@.to_set() == self@.dom(),
            r@.no_duplicates(),
            r@.len() == self@.len(),
    {
        let ghost all = IteratorSpec::remaining(&spec_keys_iter(&self.sessions));
        let mut r: Vec<usize> = Vec::new();
        for k in it: self.sessions.keys()
            invariant
                it.seq() == all,
                r@ == all.take(it.index() as int).unref(),
        {
            r.push(*k);
            assert(r@ =~= all.take(it.index() + 1).unref());
        }
        assert(r@ =~= all.unref());
        r
    }

    /// The number of live sessions.
    pub fn len(&self) -> (r: usize)
        ensures
            r == self@.len(),
    {
        self.sessions.len()
    }
}

/// `id` is what a counter at `before` hands out, leaving it at `after`.
pub open spec fn issues(before: usize, id: usize, after: usize) -> bool {
    id == before + 1 && after == id
}

/// The counter that numbers sessions; its view is the last id it handed
/// out, 0 before the first.
pub struct SessionIds {
    last: usize,
}

impl View for SessionIds {
    type V = usize;

    closed spec fn view(&self) -> usize {
        self.last
    }
}

impl SessionIds {
    pub fn new() -> (r: SessionIds)
        ensures
            r@ == 0,
    {
        SessionIds { last: 0 }
    }

    /// The next session id: one more than the last. `None` once the ids
    /// are spent, which leaves the counter as it was.
    pub fn next_id(&mut self) -> (r: Option<usize>)
        ensures
            match r {
                Some(id) => issues(old(self)@, id, final(self)@),
                None => old(self)@ == usize::MAX && final(self)@ == old(self)@,
            },
    {
        if self.last == usize::MAX {
            return None;
        }
        self.last = self.last + 1;
        Some(self.last)
    }
}

/// The ids that one counter hands out, one call after another, increase
/// strictly, and so no two of them are equal.
pub proof fn lemma_ids_strictly_increase(states: Seq<usize>, ids: Seq<usize>)
    requires
        states.len() == ids.len() + 1,
        forall|k: int| 0 <= k < ids.len() ==> issues(states[k], #[trigger] ids[k], states[k + 1]),
    ensures
        forall|i: int, j: int| 0 <= i < j < ids.len() ==> ids[i] < ids[j],
    decreases ids.len(),
{
    if ids.len() > 0 {
        let n = ids.len() - 1;
        lemma_ids_strictly_increase(states.drop_last(), ids.drop_last());
        assert forall|i: int, j: int| 0 <= i < j < ids.len() implies ids[i] < ids[j] by {
            if j == n {
                assert(issues(states[n], ids[n], states[n + 1]));
                if i < n - 1 {
                    assert(ids.drop_last()[i] < ids.drop_last()[n - 1]);
                }
                if n > 0 {
                    assert(issues(states[n - 1], ids[n - 1], states[n]));
                }
            } else {
                assert(ids.drop_last()[i] < ids.drop_last()[j]);
            }
        }
    }
}

/// A transfer command from a client that has not logged in is answered
/// "not logged in", and the session stays as it was.
pub proof fn lemma_transfer_needs_login(s: SessionView, cmd: Cmd, arg: Seq<char>, conf: ConfView)
    requires
        wf(s),
        s.auth != AuthState::Authenticated,
        is_transfer(cmd),
    ensures
        next(s, cmd, arg, conf) == (s, say(StatusCode::NotLoggedIn)),
{
    assert(cleared(s) == s);
}

/// RNTO while no rename source is set is answered "bad sequence".
pub proof fn lemma_rnto_needs_rnfr(s: SessionView, arg: Seq<char>, conf: ConfView)
    requires
        s.rename_from is None,
    ensures
        next(s, Cmd::RenameTo, arg, conf).1 == say(StatusCode::BadSequence),
{
}

/// Every command but RNFR leaves no rename source behind, so an RNTO that
/// does not come right after an RNFR is answered "bad sequence".
pub proof fn lemma_rename_source_forgotten(
    s: SessionView,
    cmd: Cmd,
    arg: Seq<char>,
    conf: ConfView,
    arg2: Seq<char>,
)
    requires
        cmd != Cmd::RenameFrom,
    ensures
        next(s, cmd, arg, conf).0.rename_from is None,
        next(next(s, cmd, arg, conf).0, Cmd::RenameTo, arg2, conf).1 == say(StatusCode::BadSequence),
{
}

/// A CWD that would climb above the root is answered "file not found" and
/// leaves the working directory as it was; whatever CWD is asked, the
/// working directory and any directory it may move to stay below the root.
pub proof fn lemma_cwd_stays_below_root(s: SessionView, arg: Seq<char>, conf: ConfView)
    requires
        wf(s),
        s.auth == AuthState::Authenticated,
        arg.len() > 0,
    ensures
        resolve(s.cwd, arg) is None ==> next(s, Cmd::ChangeDir, arg, conf) == (
            cleared(s),
            say(StatusCode::FileNotFound),
        ),
        next(s, Cmd::ChangeDir, arg, conf).0.cwd == s.cwd,
        proper_path(next(s, Cmd::ChangeDir, arg, conf).0.cwd),
        next(s, Cmd::ChangeDir, arg, conf).0.pending matches PendingView::ChangeDir(p)
            ==> proper_path(p),
        forall|d: bool| #[trigger] proper_path(cwd_done(next(s, Cmd::ChangeDir, arg, conf).0, d).0.cwd),
{
    lemma_next_wf(s, Cmd::ChangeDir, arg, conf);
}

/// A passive data connection that no client opens before a RETR gives up
/// ends in "can't open data connection", and leaves no listener set up.
pub proof fn lemma_passive_timeout_releases(
    s: SessionView,
    conf: ConfView,
    hp: HostPort,
    arg: Seq<char>,
)
    requires
        wf(s),
        s.auth == AuthState::Authenticated,
        arg.len() > 0,
        resolve(s.cwd, arg) is Some,
    ensures
        ({
            let s1 = next(s, Cmd::Passive, Seq::empty(), conf).0;
            let s2 = listen_done(s1, Some(hp)).0;
            let s3 = next(s2, Cmd::Retrieve, arg, conf).0;
            let (s4, r) = transfer_end(s3, TransferOutcome::NoConnection);
            &&& s2.data_mode == DataMode::Passive(hp)
            &&& s3.pending == PendingView::Transfer
            &&& r == reply(StatusCode::CantOpenDataConn)
            &&& s4.data_mode == DataMode::NoMode
            &&& s4.pending == PendingView::Idle
        }),
{
}

} // verus!
