use vstd::prelude::*;
use vstd::string::StringExecFns;

use crate::engine::Engine;
use crate::engine::Phase;
use crate::engine::start_engine;
use crate::error::DaemonError;
use crate::ident::Group;
use crate::ident::GroupV;
use crate::ident::User;
use crate::ident::UserV;
use crate::process::PidType;
use crate::process::PidTypeV;
use crate::process::Stdio;

verus! {

/// The immutable daemonization configuration, assembled by the fluent
/// setters and consumed exactly once by [`Daemon::start`].
///
/// The identity pair is strict: a user without a group, or a group without a
/// user, is rejected when the sequence starts. The configuration records
/// which lifecycle hooks are bound; the callbacks themselves are function
/// pointers the verifier cannot hold, so the driver owns them and calls each
/// one at the transition point the engine dictates. The post-fork parent
/// hook is expected to terminate the parent or loop forever, never to hand
/// control back.
pub struct Daemon {
    pub chdir: String,
    pub pid: Option<PidType>,
    pub chown_pid_file: bool,
    pub user: Option<User>,
    pub group: Option<Group>,
    pub umask: u16,
    pub stdin: Stdio,
    pub stdout: Stdio,
    pub stderr: Stdio,
    pub name: Option<String>,
    pub has_pre_fork_hook: bool,
    pub has_parent_hook: bool,
    pub has_child_hook: bool,
    pub has_init_hook: bool,
}

/// The mathematical value of a [`Daemon`]: the configuration data, with each
/// hook reduced to whether it is bound.
pub struct DaemonV {
    pub chdir: Seq<char>,
    pub pid: Option<PidTypeV>,
    pub chown_pid_file: bool,
    pub user: Option<UserV>,
    pub group: Option<GroupV>,
    pub umask: u16,
    pub stdin: Stdio,
    pub stdout: Stdio,
    pub stderr: Stdio,
    pub name: Option<Seq<char>>,
    pub has_pre_fork_hook: bool,
    pub has_parent_hook: bool,
    pub has_child_hook: bool,
    pub has_init_hook: bool,
}

impl View for Daemon {
    type V = DaemonV;

    open spec fn view(&self) -> DaemonV {
        DaemonV {
            chdir: self.chdir@,
            pid: match self.pid {
                Some(p) => Some(p@),
                None => None,
            },
            chown_pid_file: self.chown_pid_file,
            user: match self.user {
                Some(u) => Some(u@),
                None => None,
            },
            group: match self.group {
                Some(g) => Some(g@),
                None => None,
            },
            umask: self.umask,
            stdin: self.stdin,
            stdout: self.stdout,
            stderr: self.stderr,
            name: match self.name {
                Some(n) => Some(n@),
                None => None,
            },
            has_pre_fork_hook: self.has_pre_fork_hook,
            has_parent_hook: self.has_parent_hook,
            has_child_hook: self.has_child_hook,
            has_init_hook: self.has_init_hook,
        }
    }
}

impl Daemon {
    /// An empty configuration: working directory `/`, no pid target, no
    /// ownership transfer, no identity, umask `0o027`, all three streams at
    /// the null device, no display name, and no hooks.
    pub fn new() -> (r: Self)
        ensures
            r@.chdir == "/"@,
            r@.pid is None,
            !r@.chown_pid_file,
            r@.user is None,
            r@.group is None,
            r@.umask == 0o027u16,
            r@.stdin.inner is Devnull,
            r@.stdout.inner is Devnull,
            r@.stderr.inner is Devnull,
            r@.name is None,
            !r@.has_pre_fork_hook,
            !r@.has_parent_hook,
            !r@.has_child_hook,
            !r@.has_init_hook,
    {
        Daemon {
            chdir: String::from_str("/"),
            pid: None,
            chown_pid_file: false,
            user: None,
            group: None,
            umask: 0o027,
            stdin: Stdio::devnull(),
            stdout: Stdio::devnull(),
            stderr: Stdio::devnull(),
            name: None,
            has_pre_fork_hook: false,
            has_parent_hook: false,
            has_child_hook: false,
            has_init_hook: false,
        }
    }

    /// Sets an explicit pid-file path; `chown` additionally requests an
    /// ownership transfer of that file to the configured identity, which
    /// makes configuring a user and group mandatory.
    pub fn pid_file(self, path: &str, chown: Option<bool>) -> (r: Self)
        ensures
            r@ == (DaemonV {
                pid: Some(PidTypeV::File(path@)),
                chown_pid_file: chown is Some && chown->0,
                ..self@
            }),
    {
        let chown_pid_file = match chown {
            Some(b) => b,
            None => false,
        };
        Daemon { pid: Some(PidType::File(String::from_str(path))), chown_pid_file, ..self }
    }

    /// Sets a numeric pid target, from which the conventional pid-file path
    /// under the runtime directory is synthesized; `chown` is as in
    /// [`Daemon::pid_file`].
    pub fn pid_num(self, id: u32, chown: Option<bool>) -> (r: Self)
        ensures
            r@ == (DaemonV {
                pid: Some(PidTypeV::Num(id)),
                chown_pid_file: chown is Some && chown->0,
                ..self@
            }),
    {
        let chown_pid_file = match chown {
            Some(b) => b,
            None => false,
        };
        Daemon { pid: Some(PidType::Num(id)), chown_pid_file, ..self }
    }

    /// Sets the working directory the sequence anchors to; defaults to `/`.
    pub fn work_dir(self, path: &str) -> (r: Self)
        ensures
            r@ == (DaemonV { chdir: path@, ..self@ }),
    {
        Daemon { chdir: String::from_str(path), ..self }
    }

    /// Sets the user half of the identity to drop privileges to; a group
    /// must then be configured as well.
    pub fn user(self, user: User) -> (r: Self)
        ensures
            r@ == (DaemonV { user: Some(user@), ..self@ }),
    {
        Daemon { user: Some(user), ..self }
    }

    /// Sets the group half of the identity to drop privileges to.
    pub fn group(self, group: Group) -> (r: Self)
        ensures
            r@ == (DaemonV { group: Some(group@), ..self@ }),
    {
        Daemon { group: Some(group), ..self }
    }

    /// Completes the identity pair by resolving, in the group database, the
    /// group named like the configured user.
    pub fn group_copy_user(self) -> (r: Result<Self, DaemonError>)
        ensures
            self@.user is None ==> r is Err && r->Err_0 is InvalidUser,
            r is Err ==> r->Err_0 is InvalidUser || r->Err_0 is InvalidGroup,
            r is Ok ==> r->Ok_0@.group is Some && r->Ok_0@ == (DaemonV {
                group: r->Ok_0@.group,
                ..self@
            }),
    {
        match self.user {
            Some(ref user) => {
                match Group::from_name(user.name.as_str()) {
                    Ok(group) => Ok(Daemon { group: Some(group), ..self }),
                    Err(e) => Err(e),
                }
            },
            None => Err(DaemonError::InvalidUser),
        }
    }

    /// Sets the umask the sequence applies; values above `0o777` are
    /// rejected when the sequence reaches the umask step.
    pub fn umask(self, mask: u16) -> (r: Self)
        ensures
            r@ == (DaemonV { umask: mask, ..self@ }),
    {
        Daemon { umask: mask, ..self }
    }

    /// Sets the directive for the standard input stream.
    pub fn stdin(self, stdio: Stdio) -> (r: Self)
        ensures
            r@ == (DaemonV { stdin: stdio, ..self@ }),
    {
        Daemon { stdin: stdio, ..self }
    }

    /// Sets the directive for the standard output stream.
    pub fn stdout(self, stdio: Stdio) -> (r: Self)
        ensures
            r@ == (DaemonV { stdout: stdio, ..self@ }),
    {
        Daemon { stdout: stdio, ..self }
    }

    /// Sets the directive for the standard error stream.
    pub fn stderr(self, stdio: Stdio) -> (r: Self)
        ensures
            r@ == (DaemonV { stderr: stdio, ..self@ }),
    {
        Daemon { stderr: stdio, ..self }
    }

    /// Sets the process display name; setting it is best-effort and
    /// platform-limited.
    pub fn name(self, name: &str) -> (r: Self)
        ensures
            r@ == (DaemonV { name: Some(name@), ..self@ }),
    {
        Daemon { name: Some(String::from_str(name)), ..self }
    }

    /// Records that a pre-fork hook is bound. The callback itself is a
    /// function pointer the verifier cannot hold; the driver owns it and
    /// calls it with the current process id when the engine asks, ignoring
    /// its return value.
    pub fn setup_pre_fork_hook(self) -> (r: Self)
        ensures
            r@ == (DaemonV { has_pre_fork_hook: true, ..self@ }),
    {
        Daemon { has_pre_fork_hook: true, ..self }
    }

    /// Records that a post-fork parent hook is bound. The driver calls it in
    /// the parent branch with the parent and child pids; by contract the
    /// callback terminates the parent or loops forever and never hands
    /// control back.
    pub fn setup_post_fork_parent_hook(self) -> (r: Self)
        ensures
            r@ == (DaemonV { has_parent_hook: true, ..self@ }),
    {
        Daemon { has_parent_hook: true, ..self }
    }

    /// Records that a post-fork child hook is bound. The driver calls it in
    /// the child branch with the parent and child pids; it must return
    /// normally.
    pub fn setup_post_fork_child_hook(self) -> (r: Self)
        ensures
            r@ == (DaemonV { has_child_hook: true, ..self@ }),
    {
        Daemon { has_child_hook: true, ..self }
    }

    /// Records that a post-init hook is bound. The driver calls it, with the
    /// opaque context bound alongside it, once the process has become a
    /// daemon; its return value is ignored.
    pub fn setup_post_init_hook(self) -> (r: Self)
        ensures
            r@ == (DaemonV { has_init_hook: true, ..self@ }),
    {
        Daemon { has_init_hook: true, ..self }
    }

    /// Consumes the configuration and starts the daemonization sequence:
    /// the engine returned dictates, step by step, the ordered actions the
    /// driver must perform, beginning with the validation of the
    /// configuration invariants. The pid target, if any, is resolved to its
    /// path here.
    pub fn start(self) -> (r: Engine)
        ensures
            r@ == start_engine(self@),
    {
        let pid_path = match &self.pid {
            Some(p) => Some(p.resolve_path()),
            None => None,
        };
        Engine {
            work_dir: self.chdir,
            pid_path,
            chown_pid_file: self.chown_pid_file,
            user: self.user,
            group: self.group,
            umask: self.umask,
            stdin: self.stdin,
            stdout: self.stdout,
            stderr: self.stderr,
            proc_name: self.name,
            has_pre_fork_hook: self.has_pre_fork_hook,
            has_parent_hook: self.has_parent_hook,
            has_child_hook: self.has_child_hook,
            has_init_hook: self.has_init_hook,
            phase: Phase::Boot,
            pid: 0,
            user_name: None,
        }
    }
}

} // verus!
