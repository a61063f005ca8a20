use vstd::prelude::*;
use vstd::string::StringExecFns;

use crate::decimal::decimal_digits;
use crate::decimal::decimal_u32;

verus! {

/// What to do with one standard stream of the daemon: point it at the shared
/// null device, or at a caller-supplied open file, identified by its raw
/// descriptor.
#[derive(Clone, Copy, Debug, PartialEq, Eq, Structural)]
pub enum StdioImp {
    Devnull,
    RedirectToFd(i32),
}

/// A directive for one standard io stream of the daemon.
#[derive(Clone, Copy, Debug, PartialEq, Eq, Structural)]
pub struct Stdio {
    pub inner: StdioImp,
}

impl Stdio {
    /// A directive that points the stream at the null device.
    pub fn devnull() -> (r: Self)
        ensures
            r.inner is Devnull,
    {
        Stdio { inner: StdioImp::Devnull }
    }

    /// A directive that points the stream at the open file behind `fd`.
    pub fn from_fd(fd: i32) -> (r: Self)
        ensures
            r.inner == StdioImp::RedirectToFd(fd),
    {
        Stdio { inner: StdioImp::RedirectToFd(fd) }
    }
}

/// The descriptor a stream directive duplicates onto its standard slot:
/// the shared null-device descriptor, or the caller file's own descriptor.
pub open spec fn stream_source_fd(s: Stdio, devnull_fd: i32) -> i32 {
    match s.inner {
        StdioImp::Devnull => devnull_fd,
        StdioImp::RedirectToFd(fd) => fd,
    }
}

fn source_fd(s: &Stdio, devnull_fd: i32) -> (r: i32)
    ensures
        r == stream_source_fd(*s, devnull_fd),
{
    match s.inner {
        StdioImp::Devnull => devnull_fd,
        StdioImp::RedirectToFd(fd) => fd,
    }
}

/// The duplication plan that rewires the three standard descriptors, in the
/// fixed order stdin, stdout, stderr: each pair `(source, target)` asks for
/// the existing `target` descriptor to be closed and `source` to be
/// duplicated onto it. `devnull_fd` is the one shared null-device descriptor.
pub fn redirect_stdio(stdin: &Stdio, stdout: &Stdio, stderr: &Stdio, devnull_fd: i32) -> (r: Vec<
    (i32, i32),
>)
    ensures
        r@.len() == 3,
        r@[0] == (stream_source_fd(*stdin, devnull_fd), 0i32),
        r@[1] == (stream_source_fd(*stdout, devnull_fd), 1i32),
        r@[2] == (stream_source_fd(*stderr, devnull_fd), 2i32),
{
    let mut plan: Vec<(i32, i32)> = Vec::new();
    plan.push((source_fd(stdin, devnull_fd), 0i32));
    plan.push((source_fd(stdout, devnull_fd), 1i32));
    plan.push((source_fd(stderr, devnull_fd), 2i32));
    plan
}

/// The pid target: an explicit filesystem path, or a numeric id from which
/// the conventional path under the runtime directory is synthesized.
#[derive(Clone, Debug, PartialEq, Eq)]
pub enum PidType {
    Num(u32),
    File(String),
}

/// The mathematical value of a [`PidType`].
pub enum PidTypeV {
    Num(u32),
    File(Seq<char>),
}

impl View for PidType {
    type V = PidTypeV;

    open spec fn view(&self) -> PidTypeV {
        match self {
            PidType::Num(n) => PidTypeV::Num(*n),
            PidType::File(p) => PidTypeV::File(p@),
        }
    }
}

/// The filesystem path a pid target resolves to: the explicit path itself,
/// or `/run/<id>.pid` for a numeric id.
pub open spec fn resolved_pid_path(p: PidTypeV) -> Seq<char> {
    match p {
        PidTypeV::Num(n) => "/run/"@ + decimal_digits(n as nat) + ".pid"@,
        PidTypeV::File(path) => path,
    }
}

impl PidType {
    /// Resolves this pid target to the path of the pid file.
    pub fn resolve_path(&self) -> (r: String)
        ensures
            r@ == resolved_pid_path(self@),
    {
        match self {
            PidType::File(p) => p.clone(),
            PidType::Num(n) => {
                let mut s = String::from_str("/run/");
                let digits = decimal_u32(*n);
                s.append(digits.as_str());
                s.append(".pid");
                proof {
                    assert(s@ =~= resolved_pid_path(self@));
                }
                s
            },
        }
    }
}

/// A plain record of the per-process settings the daemonization sequence
/// applies, with the defaults of an empty configuration.
#[derive(Clone, Debug)]
pub struct ProcessInfo {
    pub chown_pid_file: bool,
    pub chdir: String,
    pub pid: Option<PidType>,
    pub umask: u16,
    pub stdin: Stdio,
    pub stdout: Stdio,
    pub stderr: Stdio,
}

impl ProcessInfo {
    /// Whether a pid target is set.
    pub fn have_pid(&self) -> (r: bool)
        ensures
            r == (self.pid is Some),
    {
        self.pid.is_some()
    }

    /// Whether pid-file ownership transfer was requested.
    pub fn have_chown_pid_file(&self) -> (r: bool)
        ensures
            r == self.chown_pid_file,
    {
        self.chown_pid_file
    }

    /// An empty record: no pid target, no ownership transfer, an empty
    /// working directory, a zero umask, and all three streams at the null
    /// device.
    pub fn new() -> (r: Self)
        ensures
            !r.chown_pid_file,
            r.chdir@ == Seq::<char>::empty(),
            r.pid is None,
            r.umask == 0u16,
            r.stdin.inner is Devnull,
            r.stdout.inner is Devnull,
            r.stderr.inner is Devnull,
    {
        ProcessInfo {
            chown_pid_file: false,
            chdir: String::new(),
            pid: None,
            umask: 0,
            stdin: Stdio::devnull(),
            stdout: Stdio::devnull(),
            stderr: Stdio::devnull(),
        }
    }
}

} // verus!
