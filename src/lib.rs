//! A multi-user FTP daemon's core: the protocol vocabulary, the configuration
//! reader, and the per-connection session state machine.

use vstd::prelude::*;

pub mod cli;
pub mod conf;
pub mod dataconn;
pub mod ftr;
pub mod listing;
pub mod path;
pub mod server;
pub mod session;
pub mod text;

pub use cli::{parse_opts, run_paths, CliOutcome, Opts};
pub use conf::{line_is_comment, strip_comment_from_line, Conf, ConfError, User};
pub use dataconn::{EprtError, HostPort};
pub use ftr::{Cmd, StatusCode};
pub use server::{
    after_accept_error, bind_address, log_line, log_message, signal_trigger, wait_for_data,
    AcceptStep, DATA_TIMEOUT_MS,
    ServerError, ServerSignal, Trigger,
};
pub use session::{
    Action, AuthState, DataMode, Reply, Session, SessionIds, SessionUser, Sessions, TransferJob,
    TransferKind, TransferOutcome, TransferType, MAX_LINE,
};

verus! {

/// `std::io::ErrorKind`, carried through the library's error values as it is.
#[verifier::external_type_specification]
#[verifier::external_body]
pub struct ExErrorKind(std::io::ErrorKind);

/// The text that `std::io::ErrorKind`'s `Display` gives a kind.
pub uninterp spec fn kind_text(k: std::io::ErrorKind) -> Seq<char>;

/// Relies on `<std::io::ErrorKind as Display>::fmt`: the description of a
/// kind, which depends on the kind alone.
#[verifier::external_body]
pub(crate) fn io_kind_text(k: std::io::ErrorKind) -> (r: String)
    ensures
        r@ == kind_text(k),
{
    k.to_string()
}

} // verus!
