//! The configuration file: `key = value` lines, `#` comments, and one
//! `user { ... }` block per account.

use vstd::prelude::*;

use crate::{io_kind_text, kind_text};
use crate::text::{
    after_char, before_char, chars_of, find_char, has_char,
    contains_chars, has_sub, push_str, same_chars, slice_of, string_of, trim, trim_chars,
};

verus! {

pub const COMMENT_SIGN: char = '#';
pub const EQUAL_SIGN: char = '=';
pub const CLOSE_BRACKET: char = '}';

pub const SERVER_OPT: &'static str = "server";
pub const ROOT_OPT: &'static str = "root";
pub const PORT_OPT: &'static str = "port";
pub const USER_OPT: &'static str = "user";
pub const USERNAME_OPT: &'static str = "username";
pub const PASSWORD_OPT: &'static str = "password";
pub const ERROR_LOG_OPT: &'static str = "error_log";
pub const ACCESS_LOG_OPT: &'static str = "access_log";

/// Why a configuration could not be read.
#[derive(Debug, Clone, Copy)]
pub enum ConfError {
    NotOpen(std::io::ErrorKind),
    NotRead(std::io::ErrorKind),
    Empty,
    ZeroPort,
    InvalidOption,
}

/// The message that describes a configuration error.
pub open spec fn conf_error_text(e: ConfError) -> Seq<char> {
    match e {
        ConfError::NotOpen(k) => "could not open the configuration file: "@ + kind_text(k),
        ConfError::NotRead(k) => "could not read data from the configuration file: "@ + kind_text(
            k,
        ),
        ConfError::Empty => "the configuration file cannot be empty"@,
        ConfError::ZeroPort => "the port number cannot be zero"@,
        ConfError::InvalidOption => "an invalid option was found"@,
    }
}

impl ConfError {
    /// The message that describes this error.
    pub fn message(&self) -> (r: String)
        ensures
            r@ == conf_error_text(*self),
    {
        match *self {
            ConfError::NotOpen(k) => {
                let mut s = "could not open the configuration file: ".to_owned();
                push_str(&mut s, io_kind_text(k).as_str());
                s
            },
            ConfError::NotRead(k) => {
                let mut s = "could not read data from the configuration file: ".to_owned();
                push_str(&mut s, io_kind_text(k).as_str());
                s
            },
            ConfError::Empty => "the configuration file cannot be empty".to_owned(),
            ConfError::ZeroPort => "the port number cannot be zero".to_owned(),
            ConfError::InvalidOption => "an invalid option was found".to_owned(),
        }
    }
}

/// An account: its name, its password, and the directory it is confined to.
pub struct UserView {
    pub username: Seq<char>,
    pub password: Seq<char>,
    pub root: Seq<char>,
}

pub struct User {
    pub username: String,
    pub password: String,
    pub root: String,
}

impl View for User {
    type V = UserView;

    open spec fn view(&self) -> UserView {
        UserView { username: self.username@, password: self.password@, root: self.root@ }
    }
}

pub open spec fn empty_user() -> UserView {
    UserView { username: Seq::empty(), password: Seq::empty(), root: Seq::empty() }
}

/// The account after the option `name = value` inside its block; `None` for
/// an option that a user block cannot hold.
pub open spec fn user_option(u: UserView, name: Seq<char>, value: Seq<char>) -> Option<UserView> {
    if name == USERNAME_OPT@ {
        Some(UserView { username: value, ..u })
    } else if name == PASSWORD_OPT@ {
        Some(UserView { password: value, ..u })
    } else if name == ROOT_OPT@ {
        Some(UserView { root: value, ..u })
    } else {
        None
    }
}

impl User {
    pub fn new() -> (r: User)
        ensures
            r@ == empty_user(),
    {
        User { username: String::new(), password: String::new(), root: String::new() }
    }

    /// Sets the option `op_name` of this account to `op_value`.
    pub fn add_option(&mut self, op_name: &str, op_value: &str) -> (r: Result<(), ConfError>)
        ensures
            match user_option(old(self)@, op_name@, op_value@) {
                Some(u) => r is Ok && final(self)@ == u,
                None => r matches Err(ConfError::InvalidOption) && final(self)@ == old(self)@,
            },
    {
        let name = chars_of(op_name);
        if same_chars(&name, USERNAME_OPT) {
            self.username = op_value.to_owned();
        } else if same_chars(&name, PASSWORD_OPT) {
            self.password = op_value.to_owned();
        } else if same_chars(&name, ROOT_OPT) {
            self.root = op_value.to_owned();
        } else {
            return Err(ConfError::InvalidOption);
        }
        Ok(())
    }
}

/// The server's settings and its accounts.
pub struct ConfView {
    pub server_name: Seq<char>,
    pub root: Seq<char>,
    pub error_log: Seq<char>,
    pub access_log: Seq<char>,
    pub port: i32,
    pub users: Seq<UserView>,
}

pub struct Conf {
    pub error_log: String,
    pub access_log: String,
    pub server_name: String,
    pub port: i32,
    pub root: String,
    pub users: Vec<User>,
}

pub open spec fn users_view(v: Seq<User>) -> Seq<UserView> {
    v.map_values(|u: User| u@)
}

impl View for Conf {
    type V = ConfView;

    open spec fn view(&self) -> ConfView {
        ConfView {
            server_name: self.server_name@,
            root: self.root@,
            error_log: self.error_log@,
            access_log: self.access_log@,
            port: self.port,
            users: users_view(self.users@),
        }
    }
}

/// The value of a decimal digit.
pub open spec fn digit_value(c: char) -> int {
    c as int - '0' as int
}

pub open spec fn is_digit(c: char) -> bool {
    '0' <= c && c <= '9'
}

/// The number that the decimal digits `s` write.
pub open spec fn digits_value(s: Seq<char>) -> int
    decreases s.len(),
{
    if s.len() == 0 {
        0
    } else {
        digits_value(s.drop_last()) * 10 + digit_value(s.last())
    }
}

/// The sign of a signed decimal, if it has one.
pub open spec fn has_sign(s: Seq<char>) -> bool {
    s.len() > 0 && (s[0] == '-' || s[0] == '+')
}

/// The digits of a signed decimal.
pub open spec fn unsigned_part(s: Seq<char>) -> Seq<char> {
    if has_sign(s) {
        s.drop_first()
    } else {
        s
    }
}

/// The value of `s` read as an `i32` in decimal, with an optional sign, as
/// `str::parse::<i32>` reads it; `None` where it is no such number.
pub open spec fn parse_i32(s: Seq<char>) -> Option<i32> {
    let d = unsigned_part(s);
    let v = if s.len() > 0 && s[0] == '-' {
        -digits_value(d)
    } else {
        digits_value(d)
    };
    if d.len() > 0 && (forall|i: int| 0 <= i < d.len() ==> is_digit(#[trigger] d[i])) && i32::MIN
        <= v <= i32::MAX {
        Some(v as i32)
    } else {
        None
    }
}

/// A port the server can listen on: from 1 to 65535.
pub open spec fn valid_port(p: i32) -> bool {
    1 <= p <= 65535
}

/// The settings after the top-level option `name = value`. A port that is
/// no number, or no valid port, is refused.
pub open spec fn conf_option(c: ConfView, name: Seq<char>, value: Seq<char>) -> Result<
    ConfView,
    ConfError,
> {
    if name == SERVER_OPT@ {
        Ok(ConfView { server_name: value, ..c })
    } else if name == ROOT_OPT@ {
        Ok(ConfView { root: value, ..c })
    } else if name == ERROR_LOG_OPT@ {
        Ok(ConfView { error_log: value, ..c })
    } else if name == ACCESS_LOG_OPT@ {
        Ok(ConfView { access_log: value, ..c })
    } else if name == PORT_OPT@ {
        match parse_i32(value) {
            Some(p) => if valid_port(p) {
                Ok(ConfView { port: p, ..c })
            } else {
                Err(ConfError::ZeroPort)
            },
            None => Err(ConfError::ZeroPort),
        }
    } else {
        Err(ConfError::InvalidOption)
    }
}

/// A line whose first character after leading whitespace is `#`.
pub open spec fn is_comment(s: Seq<char>) -> bool {
    trim(s).len() > 0 && trim(s)[0] == COMMENT_SIGN
}

/// A line without its trailing comment, trimmed; a line without `#` as it is.
pub open spec fn strip_comment(s: Seq<char>) -> Seq<char> {
    if has_char(s, COMMENT_SIGN) {
        trim(before_char(s, COMMENT_SIGN))
    } else {
        s
    }
}

proof fn lemma_digits_grow(s: Seq<char>, k: int)
    requires
        0 <= k <= s.len(),
        forall|i: int| 0 <= i < s.len() ==> is_digit(#[trigger] s[i]),
    ensures
        digits_value(s.take(k)) <= digits_value(s),
        0 <= digits_value(s.take(k)),
    decreases s.len() - k,
{
    if k < s.len() {
        lemma_digits_grow(s, k + 1);
        assert(s.take(k + 1).drop_last() =~= s.take(k));
        assert(s.take(k + 1).last() == s[k]);
    } else {
        assert(s.take(k) =~= s);
        lemma_digits_nonneg(s);
    }
}

proof fn lemma_digits_nonneg(s: Seq<char>)
    requires
        forall|i: int| 0 <= i < s.len() ==> is_digit(#[trigger] s[i]),
    ensures
        0 <= digits_value(s),
    decreases s.len(),
{
    if s.len() > 0 {
        let t = s.drop_last();
        assert(forall|i: int| 0 <= i < t.len() ==> t[i] == s[i]);
        lemma_digits_nonneg(t);
    }
}

/// Reads `v` as an `i32` in decimal, with an optional sign.
pub fn parse_int(v: &Vec<char>) -> (r: Option<i32>)
    ensures
        r == parse_i32(v@),
{
    let n = v.len();
    let neg = n > 0 && v[0] == '-';
    let start: usize = if n > 0 && (v[0] == '-' || v[0] == '+') {
        1
    } else {
        0
    };
    let ghost d = unsigned_part(v@);
    assert(d =~= v@.subrange(start as int, n as int));
    if start == n {
        return None;
    }
    let limit: i64 = if neg {
        2147483648
    } else {
        2147483647
    };
    let mut acc: i64 = 0;
    let mut i: usize = start;
    while i < n
        invariant
            start <= i <= n == v@.len(),
            d == v@.subrange(start as int, n as int),
            d == unsigned_part(v@),
            neg == (v@.len() > 0 && v@[0] == '-'),
            0 <= acc <= limit,
            limit == (if neg {
                2147483648i64
            } else {
                2147483647i64
            }),
            acc == digits_value(d.take(i - start)),
            forall|j: int| 0 <= j < i - start ==> is_digit(#[trigger] d[j]),
        decreases n - i,
    {
        let c = v[i];
        if !('0' <= c && c <= '9') {
            assert(!is_digit(d[i - start]));
            assert(!(forall|k: int| 0 <= k < d.len() ==> is_digit(#[trigger] d[k])));
            return None;
        }
        let dv = (c as u32 - '0' as u32) as i64;
        assert(d.take(i + 1 - start).drop_last() =~= d.take(i - start));
        assert(d.take(i + 1 - start).last() == c);
        acc = acc * 10 + dv;
        if acc > limit {
            proof {
                if forall|k: int| 0 <= k < d.len() ==> is_digit(#[trigger] d[k]) {
                    lemma_digits_grow(d, i + 1 - start);
                    assert(digits_value(d) > limit);
                }
            }
            return None;
        }
        i += 1;
    }
    assert(d.take(n - start) =~= d);
    if neg {
        Some((0 - acc) as i32)
    } else {
        Some(acc as i32)
    }
}

/// Whether `line` is a comment: its first character after leading
/// whitespace is `#`.
pub fn line_is_comment(line: &str) -> (r: bool)
    ensures
        r == is_comment(line@),
{
    let t = trim_chars(&chars_of(line));
    t.len() > 0 && t[0] == COMMENT_SIGN
}

/// `line` without the comment that ends it.
pub fn strip_comment_from_line(line: &str) -> (r: String)
    ensures
        r@ == strip_comment(line@),
{
    let v = chars_of(line);
    match find_char(&v, COMMENT_SIGN) {
        Some(i) => {
            let head = slice_of(&v, 0, i);
            assert(head@ =~= before_char(v@, COMMENT_SIGN));
            string_of(&trim_chars(&head))
        },
        None => line.to_owned(),
    }
}


/// The state of a reading: the settings so far, and the account whose block
/// is open, if one is.
pub struct ParseState {
    pub conf: ConfView,
    pub user: Option<UserView>,
}

/// The name of the option on an option line: what stands before its first
/// `=`, trimmed.
pub open spec fn option_name(line: Seq<char>) -> Seq<char> {
    trim(before_char(line, EQUAL_SIGN))
}

/// The value of the option on an option line: what stands after its first
/// `=` and before a second one, trimmed.
pub open spec fn option_value(line: Seq<char>) -> Seq<char> {
    trim(before_char(after_char(line, EQUAL_SIGN), EQUAL_SIGN))
}

/// The state after one line. A line with `=` sets an option of the open
/// account, or of the server where no block is open; a line that holds
/// `user` opens a new account; a line that holds `}` closes the open account
/// and adds it; any other line changes nothing.
pub open spec fn step(st: ParseState, line: Seq<char>) -> Result<ParseState, ConfError> {
    if has_char(line, EQUAL_SIGN) {
        match st.user {
            Some(u) => match user_option(u, option_name(line), option_value(line)) {
                Some(u2) => Ok(ParseState { conf: st.conf, user: Some(u2) }),
                None => Err(ConfError::InvalidOption),
            },
            None => match conf_option(st.conf, option_name(line), option_value(line)) {
                Ok(c) => Ok(ParseState { conf: c, user: None }),
                Err(e) => Err(e),
            },
        }
    } else if has_sub(line, USER_OPT@) {
        Ok(ParseState { conf: st.conf, user: Some(empty_user()) })
    } else if has_char(line, CLOSE_BRACKET) {
        match st.user {
            Some(u) => Ok(
                ParseState { conf: ConfView { users: st.conf.users.push(u), ..st.conf }, user: None },
            ),
            None => Ok(st),
        }
    } else {
        Ok(st)
    }
}

/// The state after `lines`, one after another, from `st`; on the first line
/// that fails, the state before it and the error.
pub open spec fn run(st: ParseState, lines: Seq<Seq<char>>) -> Result<
    ParseState,
    (ParseState, ConfError),
>
    decreases lines.len(),
{
    if lines.len() == 0 {
        Ok(st)
    } else {
        match run(st, lines.drop_last()) {
            Ok(s) => match step(s, lines.last()) {
                Ok(s2) => Ok(s2),
                Err(e) => Err((s, e)),
            },
            Err(x) => Err(x),
        }
    }
}

/// What reading `lines` does to the settings `c`: the result, and the
/// settings after it.
pub open spec fn build_outcome(c: ConfView, lines: Seq<Seq<char>>) -> (
    Result<(), ConfError>,
    ConfView,
) {
    if lines.len() == 0 {
        (Err(ConfError::Empty), c)
    } else {
        match run(ParseState { conf: c, user: None }, lines) {
            Ok(s) => (Ok(()), s.conf),
            Err((s, e)) => (Err(e), s.conf),
        }
    }
}

pub open spec fn lines_view(v: Seq<String>) -> Seq<Seq<char>> {
    v.map_values(|s: String| s@)
}

/// The lines of `t` split at each line break, each without it, and the
/// unfinished line after the last break.
pub open spec fn split_acc(t: Seq<char>) -> (Seq<Seq<char>>, Seq<char>)
    decreases t.len(),
{
    if t.len() == 0 {
        (Seq::empty(), Seq::empty())
    } else {
        let (done, cur) = split_acc(t.drop_last());
        if t.last() == '\n' {
            (done.push(cur), Seq::empty())
        } else {
            (done, cur.push(t.last()))
        }
    }
}

/// The lines of `t`, each without its line break.
pub open spec fn raw_lines(t: Seq<char>) -> Seq<Seq<char>> {
    let (done, cur) = split_acc(t);
    if cur.len() == 0 {
        done
    } else {
        done.push(cur)
    }
}

/// A line that carries something besides whitespace and a comment.
pub open spec fn keep_line(l: Seq<char>) -> bool {
    trim(l).len() > 0 && !is_comment(trim(l))
}

/// A kept line as the reader sees it: trimmed, without its comment.
pub open spec fn clean_line(l: Seq<char>) -> Seq<char> {
    strip_comment(trim(l))
}

/// The kept lines of `ls`, cleaned, in order.
pub open spec fn kept_lines(ls: Seq<Seq<char>>) -> Seq<Seq<char>>
    decreases ls.len(),
{
    if ls.len() == 0 {
        Seq::empty()
    } else if keep_line(ls.last()) {
        kept_lines(ls.drop_last()).push(clean_line(ls.last()))
    } else {
        kept_lines(ls.drop_last())
    }
}

/// The lines of a configuration text that the reader acts on.
pub open spec fn conf_lines(t: Seq<char>) -> Seq<Seq<char>> {
    kept_lines(raw_lines(t))
}

/// Once a reading has failed, the lines after the failure do not change
/// the outcome.
proof fn lemma_run_failed(st: ParseState, ls: Seq<Seq<char>>, k: int)
    requires
        0 <= k <= ls.len(),
        run(st, ls.take(k)) is Err,
    ensures
        run(st, ls) == run(st, ls.take(k)),
    decreases ls.len() - k,
{
    if k == ls.len() {
        assert(ls.take(k) =~= ls);
    } else {
        assert(ls.take(k + 1).drop_last() =~= ls.take(k));
        lemma_run_failed(st, ls, k + 1);
    }
}

pub open spec fn user_opt_view(u: Option<User>) -> Option<UserView> {
    match u {
        Some(u) => Some(u@),
        None => None,
    }
}

/// Appends `line` to `out`, cleaned, if it is to be kept.
fn keep_push(out: &mut Vec<String>, line: &Vec<char>)
    ensures
        lines_view(final(out)@) == if keep_line(line@) {
            lines_view(old(out)@).push(clean_line(line@))
        } else {
            lines_view(old(out)@)
        },
{
    let t = string_of(&trim_chars(line));
    if t.as_str().is_empty() || line_is_comment(t.as_str()) {
        return;
    }
    let c = strip_comment_from_line(t.as_str());
    out.push(c);
    assert(lines_view(out@) =~= lines_view(old(out)@).push(clean_line(line@)));
}

/// The lines of `text` that the reader acts on: each trimmed and without
/// its comment, blank lines and comment lines left out.
pub fn strip_comments(text: &str) -> (r: Vec<String>)
    ensures
        lines_view(r@) == conf_lines(text@),
{
    let t = chars_of(text);
    let mut out: Vec<String> = Vec::new();
    let mut cur: Vec<char> = Vec::new();
    let mut i: usize = 0;
    assert(t@.take(0) =~= Seq::<char>::empty());
    assert(lines_view(out@) =~= Seq::<Seq<char>>::empty());
    while i < t.len()
        invariant
            i <= t@.len(),
            lines_view(out@) == kept_lines(split_acc(t@.take(i as int)).0),
            cur@ == split_acc(t@.take(i as int)).1,
        decreases t@.len() - i,
    {
        assert(t@.take(i + 1).drop_last() =~= t@.take(i as int));
        assert(t@.take(i + 1).last() == t@[i as int]);
        if t[i] == '\n' {
            let ghost d = split_acc(t@.take(i as int)).0;
            assert(d.push(cur@).drop_last() =~= d);
            keep_push(&mut out, &cur);
            cur = Vec::new();
        } else {
            cur.push(t[i]);
        }
        i += 1;
    }
    assert(t@.take(t@.len() as int) =~= t@);
    if cur.len() > 0 {
        let ghost d = split_acc(t@).0;
        assert(d.push(cur@).drop_last() =~= d);
        keep_push(&mut out, &cur);
    }
    out
}

impl Conf {
    pub fn new() -> (r: Conf)
        ensures
            r@ == (ConfView {
                server_name: Seq::empty(),
                root: Seq::empty(),
                error_log: Seq::empty(),
                access_log: Seq::empty(),
                port: 0,
                users: Seq::empty(),
            }),
    {
        let r = Conf {
            server_name: String::new(),
            root: String::new(),
            error_log: String::new(),
            access_log: String::new(),
            port: 0,
            users: Vec::new(),
        };
        assert(r@.users =~= Seq::<UserView>::empty());
        r
    }

    /// Reads the configuration text `text` into these settings.
    pub fn load(&mut self, text: &str) -> (r: Result<(), ConfError>)
        ensures
            (r, final(self)@) == build_outcome(old(self)@, conf_lines(text@)),
    {
        let lines = strip_comments(text);
        self.build(lines)
    }

    /// Applies the cleaned lines `conf_vec` to these settings.
    pub fn build(&mut self, conf_vec: Vec<String>) -> (r: Result<(), ConfError>)
        ensures
            (r, final(self)@) == build_outcome(old(self)@, lines_view(conf_vec@)),
    {
        if conf_vec.len() == 0 {
            return Err(ConfError::Empty);
        }
        let ghost init = ParseState { conf: self@, user: None };
        let ghost lines = lines_view(conf_vec@);
        let mut cur_usr: Option<User> = None;
        let mut i: usize = 0;
        assert(lines.take(0) =~= Seq::<Seq<char>>::empty());
        while i < conf_vec.len()
            invariant
                i <= conf_vec@.len(),
                lines == lines_view(conf_vec@),
                init == (ParseState { conf: old(self)@, user: None }),
                conf_vec@.len() > 0,
                run(init, lines.take(i as int)) == Ok::<ParseState, (ParseState, ConfError)>(
                    ParseState { conf: self@, user: user_opt_view(cur_usr) },
                ),
            decreases conf_vec@.len() - i,
        {
            assert(lines.take(i + 1).drop_last() =~= lines.take(i as int));
            assert(lines.take(i + 1).last() == conf_vec@[i as int]@);
            let ghost before = ParseState { conf: self@, user: user_opt_view(cur_usr) };
            let line = chars_of(conf_vec[i].as_str());
            let n = line.len();
            match find_char(&line, EQUAL_SIGN) {
                Some(k) => {
                    let rest = slice_of(&line, k + 1, n);
                    assert(rest@ =~= after_char(line@, EQUAL_SIGN));
                    let raw_value = match find_char(&rest, EQUAL_SIGN) {
                        Some(m) => slice_of(&rest, 0, m),
                        None => rest,
                    };
                    assert(raw_value@ =~= before_char(after_char(line@, EQUAL_SIGN), EQUAL_SIGN));
                    let head = slice_of(&line, 0, k);
                    assert(head@ =~= before_char(line@, EQUAL_SIGN));
                    let name = string_of(&trim_chars(&head));
                    let value = string_of(&trim_chars(&raw_value));
                    let taken = cur_usr;
                    match taken {
                        Some(mut u) => {
                            match u.add_option(name.as_str(), value.as_str()) {
                                Ok(()) => {
                                    cur_usr = Some(u);
                                },
                                Err(e) => {
                                    proof {
                                        lemma_run_failed(init, lines, i + 1);
                                    }
                                    return Err(e);
                                },
                            }
                        },
                        None => {
                            cur_usr = None;
                            match self.add_option(name.as_str(), value.as_str()) {
                                Ok(()) => {},
                                Err(e) => {
                                    proof {
                                        lemma_run_failed(init, lines, i + 1);
                                    }
                                    return Err(e);
                                },
                            }
                        },
                    }
                },
                None => {
                    let word = chars_of(USER_OPT);
                    if contains_chars(&line, &word) {
                        cur_usr = Some(User::new());
                    } else if find_char(&line, CLOSE_BRACKET).is_some() {
                        let taken = cur_usr;
                        match taken {
                            Some(u) => {
                                self.users.push(u);
                                assert(users_view(self.users@) =~= before.conf.users.push(
                                    before.user->0,
                                ));
                            },
                            None => {},
                        }
                        cur_usr = None;
                    }
                },
            }
            i += 1;
        }
        assert(lines.take(conf_vec@.len() as int) =~= lines);
        Ok(())
    }

    /// Sets the top-level option `op_name` to `op_value`.
    pub fn add_option(&mut self, op_name: &str, op_value: &str) -> (r: Result<(), ConfError>)
        ensures
            match conf_option(old(self)@, op_name@, op_value@) {
                Ok(c) => r is Ok && final(self)@ == c,
                Err(e) => r == Err::<(), ConfError>(e) && final(self)@ == old(self)@,
            },
    {
        let name = chars_of(op_name);
        if same_chars(&name, SERVER_OPT) {
            self.server_name = op_value.to_owned();
        } else if same_chars(&name, ROOT_OPT) {
            self.root = op_value.to_owned();
        } else if same_chars(&name, ERROR_LOG_OPT) {
            self.error_log = op_value.to_owned();
        } else if same_chars(&name, ACCESS_LOG_OPT) {
            self.access_log = op_value.to_owned();
        } else if same_chars(&name, PORT_OPT) {
            match parse_int(&chars_of(op_value)) {
                Some(p) => {
                    if !(1 <= p && p <= 65535) {
                        return Err(ConfError::ZeroPort);
                    }
                    self.port = p;
                },
                None => {
                    return Err(ConfError::ZeroPort);
                },
            }
        } else {
            return Err(ConfError::InvalidOption);
        }
        Ok(())
    }
}

} // verus!
