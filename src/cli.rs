//! The daemon's command line: `-h`, `-v`, `-t`, `-d`, `-p prefix` and
//! `-c conf`, and the paths they lead to.

use vstd::prelude::*;

use crate::text::{chars_of, push_char, push_str, slice_of};

verus! {

pub const VERSION: &'static str = "0.0.1";
pub const PROG_NAME: &'static str = "ftr";
pub const DEFAULT_CONF: &'static str = "ftrd.conf";
pub const DEFAULT_PREFIX: &'static str = "/home/jonathan/dev/ftrd/";

/// The options of a run.
pub struct Opts {
    pub conf_file: String,
    pub prefix_path: String,
    pub run_daemon: bool,
}

/// What the command line asks for.
pub enum CliOutcome {
    /// Run the server with these options.
    Run(Opts),
    /// Print the usage and stop.
    Usage,
    /// Print the version and stop.
    Version,
    /// Test the configuration and stop.
    TestConf,
    /// Refuse this argument and stop.
    Unknown(String),
}

/// The state of a reading of the command line: the options so far, and
/// whether a prefix or a configuration path is awaited.
pub struct CliState {
    pub conf_file: Seq<char>,
    pub prefix_path: Seq<char>,
    pub run_daemon: bool,
    pub want_prefix: bool,
    pub want_conf: bool,
}

pub enum CliStop {
    Usage,
    Version,
    TestConf,
    Unknown(Seq<char>),
}

pub open spec fn start_state() -> CliState {
    CliState {
        conf_file: Seq::empty(),
        prefix_path: Seq::empty(),
        run_daemon: false,
        want_prefix: false,
        want_conf: false,
    }
}

/// `s` without the dashes it starts with.
pub open spec fn strip_dashes(s: Seq<char>) -> Seq<char>
    decreases s.len(),
{
    if s.len() > 0 && s[0] == '-' {
        strip_dashes(s.drop_first())
    } else {
        s
    }
}

/// One argument read. A flag is the argument without its leading dashes;
/// an argument that is no flag is the awaited prefix, else the awaited
/// configuration path, else refused.
pub open spec fn cli_step(st: CliState, arg: Seq<char>) -> Result<CliState, CliStop> {
    let opt = strip_dashes(arg);
    if opt == "h"@ {
        Err(CliStop::Usage)
    } else if opt == "v"@ {
        Err(CliStop::Version)
    } else if opt == "t"@ {
        Err(CliStop::TestConf)
    } else if opt == "d"@ {
        Ok(CliState { run_daemon: true, ..st })
    } else if opt == "p"@ {
        Ok(CliState { want_prefix: true, ..st })
    } else if opt == "c"@ {
        Ok(CliState { want_conf: true, ..st })
    } else if st.want_prefix {
        Ok(CliState { prefix_path: arg, want_prefix: false, ..st })
    } else if st.want_conf {
        Ok(CliState { conf_file: arg, want_conf: false, ..st })
    } else {
        Err(CliStop::Unknown(arg))
    }
}

/// The arguments read one after another; the first that stops the reading
/// decides.
pub open spec fn cli_run(args: Seq<Seq<char>>) -> Result<CliState, CliStop>
    decreases args.len(),
{
    if args.len() == 0 {
        Ok(start_state())
    } else {
        match cli_run(args.drop_last()) {
            Ok(st) => cli_step(st, args.last()),
            Err(e) => Err(e),
        }
    }
}

pub open spec fn args_view(v: Seq<String>) -> Seq<Seq<char>> {
    v.map_values(|s: String| s@)
}

/// What `parse_opts` returns for the arguments `args`.
pub open spec fn outcome_matches(r: CliOutcome, args: Seq<Seq<char>>) -> bool {
    match cli_run(args) {
        Ok(st) => r matches CliOutcome::Run(o) && o.conf_file@ == st.conf_file
            && o.prefix_path@ == st.prefix_path && o.run_daemon == st.run_daemon,
        Err(CliStop::Usage) => r is Usage,
        Err(CliStop::Version) => r is Version,
        Err(CliStop::TestConf) => r is TestConf,
        Err(CliStop::Unknown(a)) => r matches CliOutcome::Unknown(s) && s@ == a,
    }
}

proof fn lemma_cli_stopped(args: Seq<Seq<char>>, k: int)
    requires
        0 <= k <= args.len(),
        cli_run(args.take(k)) is Err,
    ensures
        cli_run(args) == cli_run(args.take(k)),
    decreases args.len() - k,
{
    if k == args.len() {
        assert(args.take(k) =~= args);
    } else {
        assert(args.take(k + 1).drop_last() =~= args.take(k));
        lemma_cli_stopped(args, k + 1);
    }
}

/// `v` without the dashes it starts with.
fn without_dashes(v: &Vec<char>) -> (r: Vec<char>)
    ensures
        r@ == strip_dashes(v@),
{
    let n = v.len();
    let mut i: usize = 0;
    assert(v@.subrange(0, n as int) =~= v@);
    while i < n && v[i] == '-'
        invariant
            i <= n == v@.len(),
            strip_dashes(v@) == strip_dashes(v@.subrange(i as int, n as int)),
        decreases n - i,
    {
        assert(v@.subrange(i as int, n as int).drop_first() =~= v@.subrange(i + 1, n as int));
        i += 1;
    }
    slice_of(v, i, n)
}

fn is_flag(opt: &Vec<char>, c: char) -> (r: bool)
    ensures
        r == (opt@ == seq![c]),
{
    if opt.len() == 1 && opt[0] == c {
        assert(opt@ =~= seq![c]);
        true
    } else {
        assert(opt@.len() != 1 || opt@[0] != seq![c][0]);
        false
    }
}

/// Reads the command line `args`, the program's name left out.
pub fn parse_opts(args: &Vec<String>) -> (r: CliOutcome)
    ensures
        outcome_matches(r, args_view(args@)),
{
    let ghost all = args_view(args@);
    let mut conf_file = String::new();
    let mut prefix_path = String::new();
    let mut run_daemon = false;
    let mut want_prefix = false;
    let mut want_conf = false;
    let mut i: usize = 0;
    assert(all.take(0) =~= Seq::<Seq<char>>::empty());
    while i < args.len()
        invariant
            i <= args@.len(),
            all == args_view(args@),
            cli_run(all.take(i as int)) == Ok::<CliState, CliStop>(
                CliState {
                    conf_file: conf_file@,
                    prefix_path: prefix_path@,
                    run_daemon,
                    want_prefix,
                    want_conf,
                },
            ),
        decreases args@.len() - i,
    {
        assert(all.take(i + 1).drop_last() =~= all.take(i as int));
        assert(all.take(i + 1).last() == args@[i as int]@);
        let arg = chars_of(args[i].as_str());
        let opt = without_dashes(&arg);
        proof {
            reveal_strlit("h");
            reveal_strlit("v");
            reveal_strlit("t");
            reveal_strlit("d");
            reveal_strlit("p");
            reveal_strlit("c");
            assert("h"@ =~= seq!['h']);
            assert("v"@ =~= seq!['v']);
            assert("t"@ =~= seq!['t']);
            assert("d"@ =~= seq!['d']);
            assert("p"@ =~= seq!['p']);
            assert("c"@ =~= seq!['c']);
        }
        if is_flag(&opt, 'h') {
            proof {
                lemma_cli_stopped(all, i + 1);
            }
            return CliOutcome::Usage;
        } else if is_flag(&opt, 'v') {
            proof {
                lemma_cli_stopped(all, i + 1);
            }
            return CliOutcome::Version;
        } else if is_flag(&opt, 't') {
            proof {
                lemma_cli_stopped(all, i + 1);
            }
            return CliOutcome::TestConf;
        } else if is_flag(&opt, 'd') {
            run_daemon = true;
        } else if is_flag(&opt, 'p') {
            want_prefix = true;
        } else if is_flag(&opt, 'c') {
            want_conf = true;
        } else if want_prefix {
            prefix_path = args[i].clone();
            want_prefix = false;
        } else if want_conf {
            conf_file = args[i].clone();
            want_conf = false;
        } else {
            proof {
                lemma_cli_stopped(all, i + 1);
            }
            return CliOutcome::Unknown(args[i].clone());
        }
        i += 1;
    }
    assert(all.take(args@.len() as int) =~= all);
    CliOutcome::Run(Opts { conf_file, prefix_path, run_daemon })
}

/// The prefix of a run: the one given, else the default, with a `/` at its
/// end.
pub open spec fn prefix_of(given: Seq<char>) -> Seq<char> {
    let p = if given.len() > 0 {
        given
    } else {
        DEFAULT_PREFIX@
    };
    if p.len() > 0 && p.last() == '/' {
        p
    } else {
        p.push('/')
    }
}

/// The configuration path of a run: the one given, else the default file
/// under the prefix.
pub open spec fn conf_path_of(prefix: Seq<char>, given: Seq<char>) -> Seq<char> {
    if given.len() > 0 {
        given
    } else {
        prefix + DEFAULT_CONF@
    }
}

/// The prefix and the configuration path that the options lead to.
pub fn run_paths(opts: &Opts) -> (r: (String, String))
    ensures
        r.0@ == prefix_of(opts.prefix_path@),
        r.1@ == conf_path_of(prefix_of(opts.prefix_path@), opts.conf_file@),
{
    let mut prefix = if opts.prefix_path.as_str().is_empty() {
        DEFAULT_PREFIX.to_owned()
    } else {
        opts.prefix_path.clone()
    };
    let v = chars_of(prefix.as_str());
    if !(v.len() > 0 && v[v.len() - 1] == '/') {
        push_char(&mut prefix, '/');
    }
    let conf = if opts.conf_file.as_str().is_empty() {
        let mut c = prefix.clone();
        push_str(&mut c, DEFAULT_CONF);
        c
    } else {
        opts.conf_file.clone()
    };
    (prefix, conf)
}

} // verus!
