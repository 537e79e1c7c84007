//! Command-line settings: listen addresses, logging verbosity and the
//! optional log file.

use vstd::prelude::*;

verus! {

/// Default HTTP listen port.
pub const DEFAULT_PORT: u16 = 8080;

/// Default host address to bind to.
pub const DEFAULT_HOST: &'static str = "0.0.0.0";

/// Default gRPC listen port.
pub const DEFAULT_GRPC_PORT: u16 = 50051;

/// The program's settings, as given on the command line.
#[derive(Debug, Clone, PartialEq, Eq)]
pub struct Args {
    /// Port to listen on.
    pub port: u16,
    /// Host address to bind to.
    pub host: String,
    /// Logging verbosity: 1 for DEBUG, 2 or more for TRACE.
    pub verbose: u8,
    /// Quiet mode: only WARN and ERROR logs.
    pub quiet: bool,
    /// Optional file path to append logs to.
    pub log_file: Option<String>,
    /// Whether the gRPC EchoService runs alongside HTTP.
    pub grpc: bool,
    /// gRPC listen port, used only when `grpc` is set.
    pub grpc_port: u16,
}

impl Default for Args {
    /// The settings when no option is given: port 8080 on `0.0.0.0`, INFO
    /// logging to standard output only, no gRPC (its port being 50051).
    fn default() -> (args: Self)
        ensures
            args.port == DEFAULT_PORT,
            args.host@ == DEFAULT_HOST@,
            args.verbose == 0,
            !args.quiet,
            args.log_file is None,
            !args.grpc,
            args.grpc_port == DEFAULT_GRPC_PORT,
    {
        Args {
            port: DEFAULT_PORT,
            host: DEFAULT_HOST.to_owned(),
            verbose: 0,
            quiet: false,
            log_file: None,
            grpc: false,
            grpc_port: DEFAULT_GRPC_PORT,
        }
    }
}

/// The most detailed level of the events that are logged.
#[derive(Debug, Clone, Copy, PartialEq, Eq, Structural)]
pub enum LogLevel {
    Warn,
    Info,
    Debug,
    Trace,
}

/// The level chosen by `--quiet` and the count of `-v` flags: quiet wins
/// and gives WARN; otherwise none gives INFO, one DEBUG, more TRACE.
pub open spec fn level_for(quiet: bool, verbose: u8) -> LogLevel {
    if quiet {
        LogLevel::Warn
    } else if verbose == 0 {
        LogLevel::Info
    } else if verbose == 1 {
        LogLevel::Debug
    } else {
        LogLevel::Trace
    }
}

/// How much a level lets through: WARN < INFO < DEBUG < TRACE.
pub open spec fn level_rank(level: LogLevel) -> nat {
    match level {
        LogLevel::Warn => 0,
        LogLevel::Info => 1,
        LogLevel::Debug => 2,
        LogLevel::Trace => 3,
    }
}

/// The decimal digit `d` as a character.
pub open spec fn digit_char(d: nat) -> char {
    if d == 0 { '0' }
    else if d == 1 { '1' }
    else if d == 2 { '2' }
    else if d == 3 { '3' }
    else if d == 4 { '4' }
    else if d == 5 { '5' }
    else if d == 6 { '6' }
    else if d == 7 { '7' }
    else if d == 8 { '8' }
    else { '9' }
}

/// The decimal rendering of `n`, most significant digit first, with no
/// leading zero.
pub open spec fn decimal(n: nat) -> Seq<char>
    decreases n,
{
    if n < 10 {
        seq![digit_char(n)]
    } else {
        decimal(n / 10).push(digit_char(n % 10))
    }
}

/// `host:port`, the address that a server binds to.
pub open spec fn socket_address(host: Seq<char>, port: u16) -> Seq<char> {
    host + seq![':'] + decimal(port as nat)
}

/// The one-character string of the decimal digit `d`.
fn digit_str(d: u16) -> (s: &'static str)
    requires
        d < 10,
    ensures
        s@ == seq![digit_char(d as nat)],
{
    match d {
        0 => { proof { reveal_strlit("0"); } "0" },
        1 => { proof { reveal_strlit("1"); } "1" },
        2 => { proof { reveal_strlit("2"); } "2" },
        3 => { proof { reveal_strlit("3"); } "3" },
        4 => { proof { reveal_strlit("4"); } "4" },
        5 => { proof { reveal_strlit("5"); } "5" },
        6 => { proof { reveal_strlit("6"); } "6" },
        7 => { proof { reveal_strlit("7"); } "7" },
        8 => { proof { reveal_strlit("8"); } "8" },
        _ => { proof { reveal_strlit("9"); } "9" },
    }
}

/// Appends the decimal rendering of `n` to `out`.
fn push_decimal(out: &mut String, n: u16)
    ensures
        final(out)@ == old(out)@ + decimal(n as nat),
    decreases n,
{
    if n >= 10 {
        push_decimal(out, n / 10);
    }
    out.append(digit_str(n % 10));
    proof {
        if n >= 10 {
            assert(decimal(n as nat) == decimal((n / 10) as nat).push(digit_char((n % 10) as nat)));
        }
    }
}

/// The address `host:port`, the port written in decimal.
pub fn bind_address(host: &str, port: u16) -> (addr: String)
    ensures
        addr@ == socket_address(host@, port),
        addr@ == host@ + seq![':'] + decimal(port as nat),
{
    let mut addr = host.to_owned();
    proof { reveal_strlit(":"); }
    addr.append(":");
    push_decimal(&mut addr, port);
    assert(addr@ =~= socket_address(host@, port));
    addr
}

/// The log file's name when the given path names no file.
pub const DEFAULT_LOG_FILE_NAME: &'static str = "strobmock.log";

/// A path made of a single plain name: non-empty, neither `.` nor `..`,
/// and holding no `/`, `\\` or `:`, so that no platform reads a separator,
/// a root or a prefix in it.
pub open spec fn plain_name(p: Seq<char>) -> bool {
    &&& p.len() > 0
    &&& p != seq!['.']
    &&& p != seq!['.', '.']
    &&& forall|i: int| 0 <= i < p.len() ==> #[trigger] p[i] != '/' && p[i] != '\\' && p[i] != ':'
}

/// `q` is a contiguous piece of `p`.
pub open spec fn is_piece_of(q: Seq<char>, p: Seq<char>) -> bool {
    exists|i: int| 0 <= i && i + q.len() <= p.len() && #[trigger] p.subrange(i, i + q.len()) == q
}

/// A directory part that every platform splits alike: non-empty, free of
/// `\\` and `:` (which Windows reads as separators or prefixes), not
/// starting with `//` (a network prefix there), and ending neither in `/`
/// nor in `/.` (trailing separators and `.` components are dropped from a
/// parent).
pub open spec fn portable_dir(a: Seq<char>) -> bool {
    &&& a.len() > 0
    &&& a.last() != '/'
    &&& !(a.len() >= 2 && a[a.len() - 2] == '/' && a.last() == '.')
    &&& !(a.len() >= 2 && a[0] == '/' && a[1] == '/')
    &&& forall|i: int| 0 <= i < a.len() ==> #[trigger] a[i] != '\\' && a[i] != ':'
}

/// The path `a/n`: a directory part, the separator `/`, a file name.
pub open spec fn dir_and_name(a: Seq<char>, n: Seq<char>) -> Seq<char> {
    a + seq!['/'] + n
}

/// The path `/n`: a name right under the root.
pub open spec fn under_root(n: Seq<char>) -> Seq<char> {
    seq!['/'] + n
}

/// The path `a/..`: a directory part followed by a step up.
pub open spec fn step_up(a: Seq<char>) -> Seq<char> {
    a + seq!['/', '.', '.']
}

/// `std::path::Path::file_name` on `path`: "the final component of the
/// Path, if there is one", and nothing where the path ends in `..` or is a
/// root. Stated here: a component is a non-empty piece of the path; a path
/// that is one plain name is its own file name; with `/`, which separates
/// components on every platform, `n` is the file name of `a/n` and of `/n`;
/// `a/..` and the root `/` have none. Where `\\` or `:` occur, platforms
/// read the path differently, so no more is stated.
#[verifier::external_body]
fn path_file_name(path: &str) -> (name: Option<String>)
    ensures
        name matches Some(n) ==> n@.len() > 0 && is_piece_of(n@, path@),
        plain_name(path@) ==> name is Some && name.unwrap()@ == path@,
        forall|a: Seq<char>, n: Seq<char>|
            portable_dir(a) && plain_name(n) && path@ == #[trigger] dir_and_name(a, n)
                ==> name is Some && name.unwrap()@ == n,
        forall|n: Seq<char>|
            plain_name(n) && path@ == #[trigger] under_root(n)
                ==> name is Some && name.unwrap()@ == n,
        forall|a: Seq<char>| portable_dir(a) && path@ == #[trigger] step_up(a) ==> name is None,
        path@ == seq!['/'] ==> name is None,
{
    match std::path::Path::new(path).file_name() {
        Some(n) => Some(n.to_string_lossy().into_owned()),
        None => None,
    }
}

/// `std::path::Path::parent` on `path`: "the Path without its final
/// component, if there is one", and nothing where the path is empty or ends
/// in a root or a prefix. Stated here: the parent is a prefix of the path;
/// an empty path and the root `/` have none; the parent of one plain name
/// is the empty path (as `foo` gives `""`); the parent of `a/n` and of
/// `a/..` is `a`, and that of `/n` is `/` (as `/foo` gives `/`). Where `\\`
/// or `:` occur, platforms read the path differently, so no more is stated.
#[verifier::external_body]
fn path_parent(path: &str) -> (parent: Option<String>)
    ensures
        parent matches Some(p) ==> p@.len() <= path@.len() && p@ == path@.subrange(0, p@.len() as int),
        path@.len() == 0 ==> parent is None,
        plain_name(path@) ==> parent is Some && parent.unwrap()@.len() == 0,
        forall|a: Seq<char>, n: Seq<char>|
            portable_dir(a) && plain_name(n) && path@ == #[trigger] dir_and_name(a, n)
                ==> parent is Some && parent.unwrap()@ == a,
        forall|n: Seq<char>|
            plain_name(n) && path@ == #[trigger] under_root(n)
                ==> parent is Some && parent.unwrap()@ == seq!['/'],
        forall|a: Seq<char>|
            portable_dir(a) && path@ == #[trigger] step_up(a)
                ==> parent is Some && parent.unwrap()@ == a,
        path@ == seq!['/'] ==> parent is None,
{
    match std::path::Path::new(path).parent() {
        Some(p) => Some(p.to_string_lossy().into_owned()),
        None => None,
    }
}

/// The directory a log file is written to: the path's parent when it has
/// a non-empty one, else the current directory.
pub open spec fn log_dir_for(parent: Option<Seq<char>>) -> Seq<char> {
    match parent {
        Some(p) => if p.len() > 0 { p } else { seq!['.'] },
        None => seq!['.'],
    }
}

/// The name of the log file: the path's file name when it has one, else
/// `strobmock.log`.
pub open spec fn log_name_for(name: Option<Seq<char>>) -> Seq<char> {
    match name {
        Some(n) => n,
        None => DEFAULT_LOG_FILE_NAME@,
    }
}

/// Where logs go, as `(directory, file name)`, from the file name and the
/// parent that the log path was split into.
pub fn log_file_location(name: Option<String>, parent: Option<String>) -> (loc: (String, String))
    ensures
        loc.0@ == log_dir_for(match parent { Some(p) => Some(p@), None => None }),
        loc.1@ == log_name_for(match name { Some(n) => Some(n@), None => None }),
        name matches Some(n) ==> loc.1@ == n@,
        name is None ==> loc.1@ == DEFAULT_LOG_FILE_NAME@,
        parent matches Some(p) ==> (p@.len() > 0 ==> loc.0@ == p@),
        parent matches Some(p) ==> (p@.len() == 0 ==> loc.0@ == seq!['.']),
        parent is None ==> loc.0@ == seq!['.'],
{
    proof { reveal_strlit("."); }
    let dir = match parent {
        Some(p) => if p.as_str().is_empty() { ".".to_owned() } else { p },
        None => ".".to_owned(),
    };
    let file = match name {
        Some(n) => n,
        None => DEFAULT_LOG_FILE_NAME.to_owned(),
    };
    (dir, file)
}

impl Args {
    /// Where `--log-file` sends the logs, as `(directory, file name)`, or
    /// nothing when no log file was asked for. The path is split by the
    /// platform's path rules into its parent and its file name, then the
    /// defaults of [`log_file_location`] fill what it lacks: the directory
    /// is `.` or a prefix of the path, the name `strobmock.log` or a piece of
    /// it; a path that is one plain name is a file in `.`, `a/n` is the file
    /// `n` in `a`, `/n` the file `n` in `/`, `a/..` gives `strobmock.log` in
    /// `a`, and the root `/` gives `strobmock.log` in `.`.
    pub fn log_file_target(&self) -> (target: Option<(String, String)>)
        ensures
            self.log_file is None <==> target is None,
            target matches Some(loc) ==> loc.0@.len() > 0 && loc.1@.len() > 0,
            self.log_file matches Some(p) ==> (target matches Some(loc) && {
                &&& loc.0@ == seq!['.'] || (loc.0@.len() <= p@.len() && loc.0@ == p@.subrange(0, loc.0@.len() as int))
                &&& loc.1@ == DEFAULT_LOG_FILE_NAME@ || is_piece_of(loc.1@, p@)
                &&& plain_name(p@) ==> loc.0@ == seq!['.'] && loc.1@ == p@
                &&& forall|a: Seq<char>, n: Seq<char>|
                    portable_dir(a) && plain_name(n) && p@ == #[trigger] dir_and_name(a, n)
                        ==> loc.0@ == a && loc.1@ == n
                &&& forall|n: Seq<char>|
                    plain_name(n) && p@ == #[trigger] under_root(n)
                        ==> loc.0@ == seq!['/'] && loc.1@ == n
                &&& forall|a: Seq<char>|
                    portable_dir(a) && p@ == #[trigger] step_up(a)
                        ==> loc.0@ == a && loc.1@ == DEFAULT_LOG_FILE_NAME@
                &&& p@ == seq!['/'] ==> loc.0@ == seq!['.'] && loc.1@ == DEFAULT_LOG_FILE_NAME@
            }),
    {
        match &self.log_file {
            None => None,
            Some(path) => {
                let name = path_file_name(path.as_str());
                let parent = path_parent(path.as_str());
                proof { reveal_strlit("strobmock.log"); }
                Some(log_file_location(name, parent))
            },
        }
    }

    /// The logging level these settings ask for.
    pub fn log_level(&self) -> (level: LogLevel)
        ensures
            level == level_for(self.quiet, self.verbose),
    {
        if self.quiet {
            LogLevel::Warn
        } else if self.verbose == 0 {
            LogLevel::Info
        } else if self.verbose == 1 {
            LogLevel::Debug
        } else {
            LogLevel::Trace
        }
    }

    /// The address the HTTP server binds to: `host:port`.
    pub fn http_address(&self) -> (addr: String)
        ensures
            addr@ == socket_address(self.host@, self.port),
    {
        bind_address(self.host.as_str(), self.port)
    }

    /// The address the gRPC server binds to: `host:grpc_port`.
    pub fn grpc_address(&self) -> (addr: String)
        ensures
            addr@ == socket_address(self.host@, self.grpc_port),
    {
        bind_address(self.host.as_str(), self.grpc_port)
    }
}

/// The value of a decimal digit character: its distance from `'0'`.
pub open spec fn char_value(c: char) -> int {
    (c as int) - ('0' as int)
}

/// Whether `c` is one of `'0'` to `'9'`.
pub open spec fn is_digit(c: char) -> bool {
    '0' as int <= c as int && c as int <= '9' as int
}

/// The number that a string of decimal digits denotes.
pub open spec fn decimal_value(s: Seq<char>) -> int
    decreases s.len(),
{
    if s.len() == 0 {
        0
    } else {
        10 * decimal_value(s.drop_last()) + char_value(s.last())
    }
}

/// The port in a bind address reads back as the port: the decimal
/// rendering of `n` denotes `n`, so two ports never share a rendering.
pub proof fn lemma_decimal_round_trip(n: nat)
    ensures
        decimal_value(decimal(n)) == n,
        forall|m: nat| #[trigger] decimal(m) == decimal(n) ==> m == n,
    decreases n,
{
    lemma_decimal_value(n);
    assert forall|m: nat| #[trigger] decimal(m) == decimal(n) implies m == n by {
        lemma_decimal_value(m);
    }
}

proof fn lemma_decimal_value(n: nat)
    ensures
        decimal_value(decimal(n)) == n,
    decreases n,
{
    let s = decimal(n);
    if n >= 10 {
        lemma_decimal_value(n / 10);
        assert(s.drop_last() =~= decimal(n / 10));
        assert(char_value(digit_char(n % 10)) == n % 10);
        vstd::arithmetic::div_mod::lemma_fundamental_div_mod(n as int, 10);
    } else {
        assert(decimal_value(s.drop_last()) == 0);
        assert(char_value(digit_char(n)) == n);
    }
}

/// The rendering of `n` is made of digits only, at least one, and starts
/// with `0` only when `n` is zero.
pub proof fn lemma_decimal_digits(n: nat)
    ensures
        decimal(n).len() >= 1,
        forall|i: int| 0 <= i < decimal(n).len() ==> #[trigger] is_digit(decimal(n)[i]),
        decimal(n)[0] == '0' <==> n == 0,
    decreases n,
{
    if n >= 10 {
        lemma_decimal_digits(n / 10);
        let s = decimal(n);
        let t = decimal(n / 10);
        assert(s =~= t.push(digit_char(n % 10)));
        assert forall|i: int| 0 <= i < s.len() implies #[trigger] is_digit(s[i]) by {
            if i < t.len() {
                assert(s[i] == t[i]);
            }
        }
        assert(s[0] == t[0]);
    }
}

/// A bind address is the host, then `:`, then the port in decimal: the part
/// after the host is `:` followed by digits only, with no leading zero,
/// whose value is the port.
pub proof fn lemma_socket_address(host: Seq<char>, port: u16)
    ensures ({
        let a = socket_address(host, port);
        let digits = a.subrange(host.len() + 1int, a.len() as int);
        &&& a.len() > host.len() + 1
        &&& a.subrange(0, host.len() as int) == host
        &&& a[host.len() as int] == ':'
        &&& decimal_value(digits) == port
        &&& forall|i: int| 0 <= i < digits.len() ==> #[trigger] is_digit(digits[i])
        &&& (digits[0] == '0' ==> port == 0)
    }),
{
    let a = socket_address(host, port);
    let digits = a.subrange(host.len() + 1int, a.len() as int);
    lemma_decimal_round_trip(port as nat);
    lemma_decimal_digits(port as nat);
    assert(a =~= host + seq![':'] + decimal(port as nat));
    assert(a.subrange(0, host.len() as int) =~= host);
    assert(digits =~= decimal(port as nat));
}

/// A log file keeps the name its path gives it, and only a path without a
/// file name gets `strobmock.log`; it goes to the path's directory when
/// that is not empty, and to `.` otherwise.
pub proof fn lemma_log_location_defaults(name: Seq<char>, dir: Seq<char>)
    ensures
        log_name_for(Some(name)) == name,
        log_name_for(None) == DEFAULT_LOG_FILE_NAME@,
        dir.len() > 0 ==> log_dir_for(Some(dir)) == dir,
        log_dir_for(Some(Seq::<char>::empty())) == seq!['.'],
        log_dir_for(None) == seq!['.'],
{
}

/// The level for every combination of `--quiet` and `-v`: WARN exactly
/// under quiet; otherwise INFO exactly with no `-v`, DEBUG exactly with
/// one, TRACE exactly with two or more.
pub proof fn lemma_level_table(quiet: bool, verbose: u8)
    ensures
        level_for(quiet, verbose) == LogLevel::Warn <==> quiet,
        !quiet ==> (level_for(quiet, verbose) == LogLevel::Info <==> verbose == 0),
        !quiet ==> (level_for(quiet, verbose) == LogLevel::Debug <==> verbose == 1),
        !quiet ==> (level_for(quiet, verbose) == LogLevel::Trace <==> verbose >= 2),
{
}

/// Quiet mode wins over any `-v`, and, without it, each further `-v` lets
/// through at least as much as the count before it.
pub proof fn lemma_verbosity_monotonic(quiet: bool, v1: u8, v2: u8)
    requires
        v1 <= v2,
    ensures
        level_for(true, v1) == LogLevel::Warn,
        level_rank(level_for(false, v1)) <= level_rank(level_for(false, v2)),
        level_rank(level_for(true, v2)) <= level_rank(level_for(quiet, v1)),
{
}

} // verus!
