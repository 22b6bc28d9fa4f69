use ftr::{line_is_comment, strip_comment_from_line, Conf, ConfError, User};

const FTRD_CONF: &str = "# ftrd test configuration
server = localhost
port = 9090
root = /home/jonathan/ftrd_test   # where the users live
error_log = errors.log
access_log = access.log

user {
    username = jt
    password = test
    root = /jt
}

  # a second account
user {
    username = test
    password = test
    root = /test
}
";

#[test]
fn test_build_conf_file() {
    let mut c = Conf::new();
    let r = c.load(FTRD_CONF);
    let user1 = &c.users[0];
    let user2 = &c.users[1];

    assert!(r.is_ok());
    assert_eq!(c.server_name, "localhost");
    assert_eq!(c.root, "/home/jonathan/ftrd_test");
    assert_eq!(c.error_log, "errors.log");
    assert_eq!(c.access_log, "access.log");
    assert_eq!(c.port, 9090);
    assert_eq!(c.users.len(), 2);
    assert_eq!(user1.username, "jt");
    assert_eq!(user1.password, "test");
    assert_eq!(user1.root, "/jt");
    assert_eq!(user2.username, "test");
    assert_eq!(user2.password, "test");
    assert_eq!(user2.root, "/test");
}

#[test]
fn test_add_option() {
    let mut c = Conf::new();
    let server_opt = c.add_option("server", "foo");
    let root_opt = c.add_option("root", "bar");
    let err_log_opt = c.add_option("error_log", "baz");
    let acc_log_opt = c.add_option("access_log", "access");
    let port_opt = c.add_option("port", "9999");
    let bad_opt = c.add_option("bad", "more bad");

    assert!(server_opt.is_ok());
    assert!(root_opt.is_ok());
    assert!(err_log_opt.is_ok());
    assert!(acc_log_opt.is_ok());
    assert!(port_opt.is_ok());
    assert!(bad_opt.is_err());

    assert_eq!(c.server_name, "foo");
    assert_eq!(c.root, "bar");
    assert_eq!(c.error_log, "baz");
    assert_eq!(c.access_log, "access");
    assert_eq!(c.port, 9999);
}

#[test]
fn test_user_add_option() {
    let mut u = User::new();
    let user_opt = u.add_option("username", "jt");
    let pass_opt = u.add_option("password", "1234");
    let root_opt = u.add_option("root", "/here");
    let bad_opt = u.add_option("dunno", "something");

    assert!(user_opt.is_ok());
    assert!(pass_opt.is_ok());
    assert!(root_opt.is_ok());
    assert!(bad_opt.is_err());

    assert_eq!(u.username, "jt");
    assert_eq!(u.password, "1234");
    assert_eq!(u.root, "/here");
}

#[test]
fn test_strip_comment_from_line() {
    let line = strip_comment_from_line("this is a conf file");
    assert_eq!(line, "this is a conf file");

    let line = strip_comment_from_line("#this is a comment");
    assert_eq!(line, "");

    let line = strip_comment_from_line("foo = bar #this is a comment");
    assert_eq!(line, "foo = bar");

    let line = strip_comment_from_line("foo = bar # this is a comment");
    assert_eq!(line, "foo = bar");
}

#[test]
fn test_line_is_comment() {
    let is_comment = line_is_comment("foo = bar # comment here");
    assert!(!is_comment);

    let is_comment = line_is_comment("# this is a comment");
    assert!(is_comment);

    let is_comment = line_is_comment("  # this is a comment");
    assert!(is_comment);
}

#[test]
fn empty_configuration_is_refused() {
    let mut c = Conf::new();
    assert!(matches!(c.load(""), Err(ConfError::Empty)));
    let mut c = Conf::new();
    assert!(matches!(c.load("# only a comment\n\n   \n"), Err(ConfError::Empty)));
}

#[test]
fn bad_port_is_refused() {
    let mut c = Conf::new();
    assert!(matches!(c.add_option("port", "90a"), Err(ConfError::ZeroPort)));
    assert!(matches!(c.add_option("port", "99999999999"), Err(ConfError::ZeroPort)));
    assert!(matches!(c.add_option("port", ""), Err(ConfError::ZeroPort)));
    assert!(matches!(c.add_option("port", "0"), Err(ConfError::ZeroPort)));
    assert!(matches!(c.add_option("port", "-5"), Err(ConfError::ZeroPort)));
    assert!(matches!(c.add_option("port", "65536"), Err(ConfError::ZeroPort)));
    assert_eq!(c.port, 0);
    assert!(c.add_option("port", "+21").is_ok());
    assert_eq!(c.port, 21);
    assert!(c.add_option("port", "65535").is_ok());
    assert_eq!(c.port, 65535);
    let mut c = Conf::new();
    assert!(matches!(c.load("port = 0
"), Err(ConfError::ZeroPort)));
}

#[test]
fn unknown_option_in_user_block_is_refused() {
    let mut c = Conf::new();
    let r = c.load("server = a\nuser {\nshell = /bin/sh\n}\n");
    assert!(matches!(r, Err(ConfError::InvalidOption)));
    assert_eq!(c.server_name, "a");
    assert_eq!(c.users.len(), 0);
}

#[test]
fn option_value_stops_at_second_equal_sign() {
    let mut c = Conf::new();
    assert!(c.load("server = a=b\r\nroot=  /srv  \n").is_ok());
    assert_eq!(c.server_name, "a");
    assert_eq!(c.root, "/srv");
}

#[test]
fn conf_error_messages() {
    assert_eq!(ConfError::Empty.message(), "the configuration file cannot be empty");
    assert_eq!(ConfError::ZeroPort.message(), "the port number cannot be zero");
    assert_eq!(ConfError::InvalidOption.message(), "an invalid option was found");
    let m = ConfError::NotOpen(std::io::ErrorKind::NotFound).message();
    assert_eq!(m, "could not open the configuration file: entity not found");
    let m = ConfError::NotRead(std::io::ErrorKind::PermissionDenied).message();
    assert_eq!(m, "could not read data from the configuration file: permission denied");
}
