use vstd::prelude::*;

use crate::daemon::DaemonV;
use crate::decimal::decimal_digits;
use crate::decimal::decimal_u32;
use crate::error::DaemonError;
use crate::ident::Group;
use crate::ident::GroupV;
use crate::ident::User;
use crate::ident::UserV;
use crate::process::Stdio;
use crate::process::resolved_pid_path;

verus! {

/// Where the engine stands in the ordered sequence.
///
/// `Boot` is the configured state before any step has run; every other phase
/// but `Finalized` names the action whose outcome the engine is waiting for;
/// `Finalized` is terminal, reached on success, on the first fatal error, and
/// on the parent branch of the fork.
#[derive(Clone, Copy, Debug, PartialEq, Eq, Structural)]
pub enum Phase {
    Boot,
    PreForkHook,
    Forking,
    ChildHook,
    Streams,
    ProcName,
    UmaskStep,
    Session,
    AnchorDir,
    PidFile,
    NameLookup,
    ChownPid,
    GroupDrop,
    GroupsInit,
    UserDrop,
    FinalDir,
    InitHook,
    Finalized,
}

/// What the driver reports back about the action the engine last requested.
#[derive(Clone, Debug, PartialEq, Eq)]
pub enum Event {
    /// The first call, before any action was requested.
    Start,
    /// The action completed.
    Succeeded,
    /// The action failed.
    Failed,
    /// The platform does not support the action.
    Unsupported,
    /// The fork returned in the parent; `child_pid` is the new child.
    ForkedParent { child_pid: u32 },
    /// The fork returned in the child, whose process id is `child_pid`.
    ForkedChild { child_pid: u32 },
    /// The reverse account lookup found this canonical user name.
    ResolvedName { name: String },
}

/// The mathematical value of an [`Event`].
pub enum EventV {
    Start,
    Succeeded,
    Failed,
    Unsupported,
    ForkedParent { child_pid: u32 },
    ForkedChild { child_pid: u32 },
    ResolvedName { name: Seq<char> },
}

impl View for Event {
    type V = EventV;

    open spec fn view(&self) -> EventV {
        match self {
            Event::Start => EventV::Start,
            Event::Succeeded => EventV::Succeeded,
            Event::Failed => EventV::Failed,
            Event::Unsupported => EventV::Unsupported,
            Event::ForkedParent { child_pid } => EventV::ForkedParent { child_pid: *child_pid },
            Event::ForkedChild { child_pid } => EventV::ForkedChild { child_pid: *child_pid },
            Event::ResolvedName { name } => EventV::ResolvedName { name: name@ },
        }
    }
}

/// One operation the engine asks the driver to perform. The driver performs
/// it and reports the outcome back as the next [`Event`].
#[derive(Clone, Debug, PartialEq, Eq)]
pub enum Action {
    /// Call the pre-fork hook with the current process id.
    InvokePreForkHook,
    /// Fork the process.
    Fork,
    /// Call the post-fork parent hook with the parent and child pids; by
    /// contract it never returns.
    InvokePostForkParentHook,
    /// Terminate the parent with success status.
    ExitParentSuccess,
    /// Call the post-fork child hook with the parent and child pids.
    InvokePostForkChildHook,
    /// Rewire the three standard streams as the directives say, in the fixed
    /// order stdin, stdout, stderr, against one shared null-device
    /// descriptor.
    RedirectStreams { stdin: Stdio, stdout: Stdio, stderr: Stdio },
    /// Set the process display name, best effort and platform-limited.
    SetProcessName { name: String },
    /// Apply this umask.
    ApplyUmask { mask: u16 },
    /// Create a new session, detaching the controlling terminal.
    CreateSession,
    /// Change the working directory to this path.
    ChangeWorkingDir { path: String },
    /// Create or truncate the pid file at `path` and write `contents` to it,
    /// exactly and with no terminator.
    WritePidFile { path: String, contents: String },
    /// Reverse-resolve the canonical account name of this user id.
    LookupUserName { uid: u32 },
    /// Change the pid file's ownership to the resolved identity.
    ChownPidFile { path: String, uid: u32, gid: u32 },
    /// Call set-group-id with the resolved group id.
    SetGroupId { gid: u32 },
    /// Initialize the supplementary groups of `name` against `gid`.
    InitSupplementaryGroups { name: String, gid: u32 },
    /// Call set-user-id with the resolved user id.
    SetUserId { uid: u32 },
    /// Call the post-init hook with the context bound at configuration time.
    InvokePostInitHook,
}

/// The mathematical value of an [`Action`].
pub enum ActionV {
    InvokePreForkHook,
    Fork,
    InvokePostForkParentHook,
    ExitParentSuccess,
    InvokePostForkChildHook,
    RedirectStreams { stdin: Stdio, stdout: Stdio, stderr: Stdio },
    SetProcessName { name: Seq<char> },
    ApplyUmask { mask: u16 },
    CreateSession,
    ChangeWorkingDir { path: Seq<char> },
    WritePidFile { path: Seq<char>, contents: Seq<char> },
    LookupUserName { uid: u32 },
    ChownPidFile { path: Seq<char>, uid: u32, gid: u32 },
    SetGroupId { gid: u32 },
    InitSupplementaryGroups { name: Seq<char>, gid: u32 },
    SetUserId { uid: u32 },
    InvokePostInitHook,
}

impl View for Action {
    type V = ActionV;

    open spec fn view(&self) -> ActionV {
        match self {
            Action::InvokePreForkHook => ActionV::InvokePreForkHook,
            Action::Fork => ActionV::Fork,
            Action::InvokePostForkParentHook => ActionV::InvokePostForkParentHook,
            Action::ExitParentSuccess => ActionV::ExitParentSuccess,
            Action::InvokePostForkChildHook => ActionV::InvokePostForkChildHook,
            Action::RedirectStreams { stdin, stdout, stderr } => ActionV::RedirectStreams {
                stdin: *stdin,
                stdout: *stdout,
                stderr: *stderr,
            },
            Action::SetProcessName { name } => ActionV::SetProcessName { name: name@ },
            Action::ApplyUmask { mask } => ActionV::ApplyUmask { mask: *mask },
            Action::CreateSession => ActionV::CreateSession,
            Action::ChangeWorkingDir { path } => ActionV::ChangeWorkingDir { path: path@ },
            Action::WritePidFile { path, contents } => ActionV::WritePidFile {
                path: path@,
                contents: contents@,
            },
            Action::LookupUserName { uid } => ActionV::LookupUserName { uid: *uid },
            Action::ChownPidFile { path, uid, gid } => ActionV::ChownPidFile {
                path: path@,
                uid: *uid,
                gid: *gid,
            },
            Action::SetGroupId { gid } => ActionV::SetGroupId { gid: *gid },
            Action::InitSupplementaryGroups { name, gid } => ActionV::InitSupplementaryGroups {
                name: name@,
                gid: *gid,
            },
            Action::SetUserId { uid } => ActionV::SetUserId { uid: *uid },
            Action::InvokePostInitHook => ActionV::InvokePostInitHook,
        }
    }
}

/// What the engine answers to one driver call.
#[derive(Clone, Debug, PartialEq, Eq)]
pub enum Step {
    /// Perform this action and report its outcome with the next call.
    Do(Action),
    /// Terminal: perform this action in the parent branch; the engine
    /// expects no report, because the action never hands control back.
    Diverge(Action),
    /// Terminal: the sequence aborted with this error.
    Fail(DaemonError),
    /// Terminal: the process is a daemon now.
    Done,
}

/// The mathematical value of a [`Step`].
pub enum StepV {
    Do(ActionV),
    Diverge(ActionV),
    Fail(DaemonError),
    Done,
}

impl View for Step {
    type V = StepV;

    open spec fn view(&self) -> StepV {
        match self {
            Step::Do(a) => StepV::Do(a@),
            Step::Diverge(a) => StepV::Diverge(a@),
            Step::Fail(e) => StepV::Fail(*e),
            Step::Done => StepV::Done,
        }
    }
}

/// The daemonization engine: the configuration data the sequence consults,
/// the phase reached, and the values captured along the way (the child's
/// process id and the reverse-resolved user name).
pub struct Engine {
    pub work_dir: String,
    pub pid_path: Option<String>,
    pub chown_pid_file: bool,
    pub user: Option<User>,
    pub group: Option<Group>,
    pub umask: u16,
    pub stdin: Stdio,
    pub stdout: Stdio,
    pub stderr: Stdio,
    pub proc_name: Option<String>,
    pub has_pre_fork_hook: bool,
    pub has_parent_hook: bool,
    pub has_child_hook: bool,
    pub has_init_hook: bool,
    pub phase: Phase,
    pub pid: u32,
    pub user_name: Option<String>,
}

/// The mathematical value of an [`Engine`].
pub struct EngineV {
    pub work_dir: Seq<char>,
    pub pid_path: Option<Seq<char>>,
    pub chown_pid_file: bool,
    pub user: Option<UserV>,
    pub group: Option<GroupV>,
    pub umask: u16,
    pub stdin: Stdio,
    pub stdout: Stdio,
    pub stderr: Stdio,
    pub proc_name: Option<Seq<char>>,
    pub has_pre_fork_hook: bool,
    pub has_parent_hook: bool,
    pub has_child_hook: bool,
    pub has_init_hook: bool,
    pub phase: Phase,
    pub pid: u32,
    pub user_name: Option<Seq<char>>,
}

impl View for Engine {
    type V = EngineV;

    open spec fn view(&self) -> EngineV {
        EngineV {
            work_dir: self.work_dir@,
            pid_path: match self.pid_path {
                Some(p) => Some(p@),
                None => None,
            },
            chown_pid_file: self.chown_pid_file,
            user: match self.user {
                Some(u) => Some(u@),
                None => None,
            },
            group: match self.group {
                Some(g) => Some(g@),
                None => None,
            },
            umask: self.umask,
            stdin: self.stdin,
            stdout: self.stdout,
            stderr: self.stderr,
            proc_name: match self.proc_name {
                Some(n) => Some(n@),
                None => None,
            },
            has_pre_fork_hook: self.has_pre_fork_hook,
            has_parent_hook: self.has_parent_hook,
            has_child_hook: self.has_child_hook,
            has_init_hook: self.has_init_hook,
            phase: self.phase,
            pid: self.pid,
            user_name: match self.user_name {
                Some(n) => Some(n@),
                None => None,
            },
        }
    }
}

/// The engine a configuration starts: the same data, with the pid target
/// already resolved to a path, in phase `Boot`.
pub open spec fn start_engine(d: DaemonV) -> EngineV {
    EngineV {
        work_dir: d.chdir,
        pid_path: match d.pid {
            Some(p) => Some(resolved_pid_path(p)),
            None => None,
        },
        chown_pid_file: d.chown_pid_file,
        user: d.user,
        group: d.group,
        umask: d.umask,
        stdin: d.stdin,
        stdout: d.stdout,
        stderr: d.stderr,
        proc_name: d.name,
        has_pre_fork_hook: d.has_pre_fork_hook,
        has_parent_hook: d.has_parent_hook,
        has_child_hook: d.has_child_hook,
        has_init_hook: d.has_init_hook,
        phase: Phase::Boot,
        pid: 0,
        user_name: None,
    }
}

impl EngineV {
    /// The same engine in phase `p`.
    pub open spec fn with_phase(self, p: Phase) -> EngineV {
        EngineV { phase: p, ..self }
    }

    /// The configuration invariants checked before anything runs: the
    /// identity pair is complete or absent, and pid-file ownership transfer
    /// requires an identity.
    pub open spec fn valid_config(self) -> bool {
        (self.user is Some <==> self.group is Some) && (self.chown_pid_file
            ==> self.user is Some)
    }

    /// Terminal failure with `err`.
    pub open spec fn abort(self, err: DaemonError) -> (EngineV, StepV) {
        (self.with_phase(Phase::Finalized), StepV::Fail(err))
    }

    /// Terminal success.
    pub open spec fn complete(self) -> (EngineV, StepV) {
        (self.with_phase(Phase::Finalized), StepV::Done)
    }

    /// Validation, then the pre-fork hook if one is bound, else the fork.
    pub open spec fn step_boot(self) -> (EngineV, StepV) {
        if !self.valid_config() {
            self.abort(DaemonError::ConfigInvalid)
        } else if self.has_pre_fork_hook {
            (self.with_phase(Phase::PreForkHook), StepV::Do(ActionV::InvokePreForkHook))
        } else {
            self.step_fork()
        }
    }

    /// The fork request.
    pub open spec fn step_fork(self) -> (EngineV, StepV) {
        (self.with_phase(Phase::Forking), StepV::Do(ActionV::Fork))
    }

    /// The stream redirection request.
    pub open spec fn step_streams(self) -> (EngineV, StepV) {
        (
            self.with_phase(Phase::Streams),
            StepV::Do(
                ActionV::RedirectStreams {
                    stdin: self.stdin,
                    stdout: self.stdout,
                    stderr: self.stderr,
                },
            ),
        )
    }

    /// The display-name request if a name is configured, else the umask step.
    pub open spec fn step_after_streams(self) -> (EngineV, StepV) {
        if self.proc_name is Some {
            (
                self.with_phase(Phase::ProcName),
                StepV::Do(ActionV::SetProcessName { name: self.proc_name->0 }),
            )
        } else {
            self.step_umask()
        }
    }

    /// The umask application, rejecting values outside the permission bits.
    pub open spec fn step_umask(self) -> (EngineV, StepV) {
        if self.umask > 0o777 {
            self.abort(DaemonError::InvalidUmaskBits)
        } else {
            (self.with_phase(Phase::UmaskStep), StepV::Do(ActionV::ApplyUmask { mask: self.umask }))
        }
    }

    /// The new-session request.
    pub open spec fn step_session(self) -> (EngineV, StepV) {
        (self.with_phase(Phase::Session), StepV::Do(ActionV::CreateSession))
    }

    /// The early working-directory anchor.
    pub open spec fn step_anchor(self) -> (EngineV, StepV) {
        (
            self.with_phase(Phase::AnchorDir),
            StepV::Do(ActionV::ChangeWorkingDir { path: self.work_dir }),
        )
    }

    /// The pid-file write if a target is configured, else the privilege drop.
    pub open spec fn step_pid_file(self) -> (EngineV, StepV) {
        if self.pid_path is Some {
            (
                self.with_phase(Phase::PidFile),
                StepV::Do(
                    ActionV::WritePidFile {
                        path: self.pid_path->0,
                        contents: decimal_digits(self.pid as nat),
                    },
                ),
            )
        } else {
            self.step_privilege()
        }
    }

    /// The reverse name lookup that opens the privilege drop, if an identity
    /// is configured, else the final working-directory change.
    pub open spec fn step_privilege(self) -> (EngineV, StepV) {
        if self.user is Some && self.group is Some {
            (
                self.with_phase(Phase::NameLookup),
                StepV::Do(ActionV::LookupUserName { uid: self.user->0.id }),
            )
        } else {
            self.step_final_dir()
        }
    }

    /// The pid-file ownership transfer if requested — before any privilege
    /// is dropped, while the process may still chown — else set-group-id.
    pub open spec fn step_after_lookup(self) -> (EngineV, StepV) {
        if self.chown_pid_file && self.pid_path is Some && self.user is Some && self.group
            is Some {
            (
                self.with_phase(Phase::ChownPid),
                StepV::Do(
                    ActionV::ChownPidFile {
                        path: self.pid_path->0,
                        uid: self.user->0.id,
                        gid: self.group->0.id,
                    },
                ),
            )
        } else {
            self.step_setgid()
        }
    }

    /// Set-group-id, the first privilege syscall.
    pub open spec fn step_setgid(self) -> (EngineV, StepV) {
        if self.group is Some {
            (self.with_phase(Phase::GroupDrop), StepV::Do(ActionV::SetGroupId { gid: self.group->0.id }))
        } else {
            self.step_final_dir()
        }
    }

    /// Supplementary-group initialization, between set-group-id and
    /// set-user-id.
    pub open spec fn step_initgroups(self) -> (EngineV, StepV) {
        if self.user_name is Some && self.group is Some {
            (
                self.with_phase(Phase::GroupsInit),
                StepV::Do(
                    ActionV::InitSupplementaryGroups {
                        name: self.user_name->0,
                        gid: self.group->0.id,
                    },
                ),
            )
        } else {
            self.step_setuid()
        }
    }

    /// Set-user-id, mandatorily the last privilege syscall: after it the
    /// process can no longer set the group or the supplementary groups.
    pub open spec fn step_setuid(self) -> (EngineV, StepV) {
        if self.user is Some {
            (self.with_phase(Phase::UserDrop), StepV::Do(ActionV::SetUserId { uid: self.user->0.id }))
        } else {
            self.step_final_dir()
        }
    }

    /// The final working-directory re-anchor, after the privilege drop,
    /// under the new identity.
    pub open spec fn step_final_dir(self) -> (EngineV, StepV) {
        (
            self.with_phase(Phase::FinalDir),
            StepV::Do(ActionV::ChangeWorkingDir { path: self.work_dir }),
        )
    }

    /// The post-init hook if one is bound, else terminal success.
    pub open spec fn step_after_final_dir(self) -> (EngineV, StepV) {
        if self.has_init_hook {
            (self.with_phase(Phase::InitHook), StepV::Do(ActionV::InvokePostInitHook))
        } else {
            self.complete()
        }
    }
}

/// The complete transition relation of the engine: from a state and the
/// driver's report, the successor state and the engine's answer.
///
/// Phases whose action cannot fail or whose outcome is contractually ignored
/// (the hooks, the umask) accept any report; at every other phase a report
/// that is not the expected success is that step's typed failure.
pub open spec fn transition(e: EngineV, ev: EventV) -> (EngineV, StepV) {
    match e.phase {
        Phase::Boot => e.step_boot(),
        Phase::PreForkHook => e.step_fork(),
        Phase::Forking => match ev {
            EventV::ForkedChild { child_pid } => {
                let e2 = EngineV { pid: child_pid, ..e };
                if e2.has_child_hook {
                    (e2.with_phase(Phase::ChildHook), StepV::Do(ActionV::InvokePostForkChildHook))
                } else {
                    e2.step_streams()
                }
            },
            EventV::ForkedParent { .. } => {
                if e.has_parent_hook {
                    (e.with_phase(Phase::Finalized), StepV::Diverge(ActionV::InvokePostForkParentHook))
                } else {
                    (e.with_phase(Phase::Finalized), StepV::Diverge(ActionV::ExitParentSuccess))
                }
            },
            _ => e.abort(DaemonError::ForkFailed),
        },
        Phase::ChildHook => e.step_streams(),
        Phase::Streams => match ev {
            EventV::Succeeded => e.step_after_streams(),
            _ => e.abort(DaemonError::StreamRedirectFailed),
        },
        Phase::ProcName => match ev {
            EventV::Succeeded => e.step_umask(),
            EventV::Unsupported => e.abort(DaemonError::UnsupportedOnPlatform),
            _ => e.abort(DaemonError::ProcessNameFailed),
        },
        Phase::UmaskStep => e.step_session(),
        Phase::Session => match ev {
            EventV::Succeeded => e.step_anchor(),
            _ => e.abort(DaemonError::SetSessionFailed),
        },
        Phase::AnchorDir => match ev {
            EventV::Succeeded => e.step_pid_file(),
            _ => e.abort(DaemonError::ChangeDirectoryFailed),
        },
        Phase::PidFile => match ev {
            EventV::Succeeded => e.step_privilege(),
            _ => e.abort(DaemonError::WritePidFailed),
        },
        Phase::NameLookup => match ev {
            EventV::ResolvedName { name } => (EngineV { user_name: Some(name), ..e }).step_after_lookup(),
            _ => e.abort(DaemonError::InvalidUser),
        },
        Phase::ChownPid => match ev {
            EventV::Succeeded => e.step_setgid(),
            _ => e.abort(DaemonError::ChownPidFailed),
        },
        Phase::GroupDrop => match ev {
            EventV::Succeeded => e.step_initgroups(),
            _ => e.abort(DaemonError::SetGidFailed),
        },
        Phase::GroupsInit => match ev {
            EventV::Succeeded => e.step_setuid(),
            EventV::Unsupported => e.step_setuid(),
            _ => e.abort(DaemonError::SupplementaryGroupInitFailed),
        },
        Phase::UserDrop => match ev {
            EventV::Succeeded => e.step_final_dir(),
            _ => e.abort(DaemonError::SetUidFailed),
        },
        Phase::FinalDir => match ev {
            EventV::Succeeded => e.step_after_final_dir(),
            _ => e.abort(DaemonError::ChangeDirectoryFailed),
        },
        Phase::InitHook => e.complete(),
        Phase::Finalized => (e, StepV::Done),
    }
}

impl Engine {
    fn go_fail(&mut self, err: DaemonError) -> (r: Step)
        ensures
            (final(self)@, r@) == old(self)@.abort(err),
    {
        self.phase = Phase::Finalized;
        Step::Fail(err)
    }

    fn go_complete(&mut self) -> (r: Step)
        ensures
            (final(self)@, r@) == old(self)@.complete(),
    {
        self.phase = Phase::Finalized;
        Step::Done
    }

    fn go_boot(&mut self) -> (r: Step)
        ensures
            (final(self)@, r@) == old(self)@.step_boot(),
    {
        let paired = self.user.is_some() == self.group.is_some();
        let chown_ok = !self.chown_pid_file || self.user.is_some();
        if !(paired && chown_ok) {
            self.go_fail(DaemonError::ConfigInvalid)
        } else if self.has_pre_fork_hook {
            self.phase = Phase::PreForkHook;
            Step::Do(Action::InvokePreForkHook)
        } else {
            self.go_fork()
        }
    }

    fn go_fork(&mut self) -> (r: Step)
        ensures
            (final(self)@, r@) == old(self)@.step_fork(),
    {
        self.phase = Phase::Forking;
        Step::Do(Action::Fork)
    }

    fn go_streams(&mut self) -> (r: Step)
        ensures
            (final(self)@, r@) == old(self)@.step_streams(),
    {
        self.phase = Phase::Streams;
        Step::Do(
            Action::RedirectStreams { stdin: self.stdin, stdout: self.stdout, stderr: self.stderr },
        )
    }

    fn go_after_streams(&mut self) -> (r: Step)
        ensures
            (final(self)@, r@) == old(self)@.step_after_streams(),
    {
        match &self.proc_name {
            Some(n) => {
                let name = n.clone();
                self.phase = Phase::ProcName;
                Step::Do(Action::SetProcessName { name })
            },
            None => self.go_umask(),
        }
    }

    fn go_umask(&mut self) -> (r: Step)
        ensures
            (final(self)@, r@) == old(self)@.step_umask(),
    {
        if self.umask > 0o777 {
            self.go_fail(DaemonError::InvalidUmaskBits)
        } else {
            self.phase = Phase::UmaskStep;
            Step::Do(Action::ApplyUmask { mask: self.umask })
        }
    }

    fn go_session(&mut self) -> (r: Step)
        ensures
            (final(self)@, r@) == old(self)@.step_session(),
    {
        self.phase = Phase::Session;
        Step::Do(Action::CreateSession)
    }

    fn go_anchor(&mut self) -> (r: Step)
        ensures
            (final(self)@, r@) == old(self)@.step_anchor(),
    {
        self.phase = Phase::AnchorDir;
        Step::Do(Action::ChangeWorkingDir { path: self.work_dir.clone() })
    }

    fn go_pid_file(&mut self) -> (r: Step)
        ensures
            (final(self)@, r@) == old(self)@.step_pid_file(),
    {
        match &self.pid_path {
            Some(p) => {
                let path = p.clone();
                let contents = decimal_u32(self.pid);
                self.phase = Phase::PidFile;
                Step::Do(Action::WritePidFile { path, contents })
            },
            None => self.go_privilege(),
        }
    }

    fn go_privilege(&mut self) -> (r: Step)
        ensures
            (final(self)@, r@) == old(self)@.step_privilege(),
    {
        match (&self.user, &self.group) {
            (Some(u), Some(_g)) => {
                let uid = u.id;
                self.phase = Phase::NameLookup;
                Step::Do(Action::LookupUserName { uid })
            },
            _ => self.go_final_dir(),
        }
    }

    fn go_after_lookup(&mut self) -> (r: Step)
        ensures
            (final(self)@, r@) == old(self)@.step_after_lookup(),
    {
        if self.chown_pid_file {
            match (&self.pid_path, &self.user, &self.group) {
                (Some(p), Some(u), Some(g)) => {
                    let path = p.clone();
                    let uid = u.id;
                    let gid = g.id;
                    self.phase = Phase::ChownPid;
                    Step::Do(Action::ChownPidFile { path, uid, gid })
                },
                _ => self.go_setgid(),
            }
        } else {
            self.go_setgid()
        }
    }

    fn go_setgid(&mut self) -> (r: Step)
        ensures
            (final(self)@, r@) == old(self)@.step_setgid(),
    {
        match &self.group {
            Some(g) => {
                let gid = g.id;
                self.phase = Phase::GroupDrop;
                Step::Do(Action::SetGroupId { gid })
            },
            None => self.go_final_dir(),
        }
    }

    fn go_initgroups(&mut self) -> (r: Step)
        ensures
            (final(self)@, r@) == old(self)@.step_initgroups(),
    {
        match (&self.user_name, &self.group) {
            (Some(n), Some(g)) => {
                let name = n.clone();
                let gid = g.id;
                self.phase = Phase::GroupsInit;
                Step::Do(Action::InitSupplementaryGroups { name, gid })
            },
            _ => self.go_setuid(),
        }
    }

    fn go_setuid(&mut self) -> (r: Step)
        ensures
            (final(self)@, r@) == old(self)@.step_setuid(),
    {
        match &self.user {
            Some(u) => {
                let uid = u.id;
                self.phase = Phase::UserDrop;
                Step::Do(Action::SetUserId { uid })
            },
            None => self.go_final_dir(),
        }
    }

    fn go_final_dir(&mut self) -> (r: Step)
        ensures
            (final(self)@, r@) == old(self)@.step_final_dir(),
    {
        self.phase = Phase::FinalDir;
        Step::Do(Action::ChangeWorkingDir { path: self.work_dir.clone() })
    }

    fn go_after_final_dir(&mut self) -> (r: Step)
        ensures
            (final(self)@, r@) == old(self)@.step_after_final_dir(),
    {
        if self.has_init_hook {
            self.phase = Phase::InitHook;
            Step::Do(Action::InvokePostInitHook)
        } else {
            self.go_complete()
        }
    }

    /// One step of the engine: consumes the driver's report on the previous
    /// action and answers with the next step, exactly as [`transition`]
    /// describes it.
    pub fn next(&mut self, ev: Event) -> (r: Step)
        ensures
            (final(self)@, r@) == transition(old(self)@, ev@),
    {
        match self.phase {
            Phase::Boot => self.go_boot(),
            Phase::PreForkHook => self.go_fork(),
            Phase::Forking => match ev {
                Event::ForkedChild { child_pid } => {
                    self.pid = child_pid;
                    if self.has_child_hook {
                        self.phase = Phase::ChildHook;
                        Step::Do(Action::InvokePostForkChildHook)
                    } else {
                        self.go_streams()
                    }
                },
                Event::ForkedParent { .. } => {
                    self.phase = Phase::Finalized;
                    if self.has_parent_hook {
                        Step::Diverge(Action::InvokePostForkParentHook)
                    } else {
                        Step::Diverge(Action::ExitParentSuccess)
                    }
                },
                _ => self.go_fail(DaemonError::ForkFailed),
            },
            Phase::ChildHook => self.go_streams(),
            Phase::Streams => match ev {
                Event::Succeeded => self.go_after_streams(),
                _ => self.go_fail(DaemonError::StreamRedirectFailed),
            },
            Phase::ProcName => match ev {
                Event::Succeeded => self.go_umask(),
                Event::Unsupported => self.go_fail(DaemonError::UnsupportedOnPlatform),
                _ => self.go_fail(DaemonError::ProcessNameFailed),
            },
            Phase::UmaskStep => self.go_session(),
            Phase::Session => match ev {
                Event::Succeeded => self.go_anchor(),
                _ => self.go_fail(DaemonError::SetSessionFailed),
            },
            Phase::AnchorDir => match ev {
                Event::Succeeded => self.go_pid_file(),
                _ => self.go_fail(DaemonError::ChangeDirectoryFailed),
            },
            Phase::PidFile => match ev {
                Event::Succeeded => self.go_privilege(),
                _ => self.go_fail(DaemonError::WritePidFailed),
            },
            Phase::NameLookup => match ev {
                Event::ResolvedName { name } => {
                    self.user_name = Some(name);
                    self.go_after_lookup()
                },
                _ => self.go_fail(DaemonError::InvalidUser),
            },
            Phase::ChownPid => match ev {
                Event::Succeeded => self.go_setgid(),
                _ => self.go_fail(DaemonError::ChownPidFailed),
            },
            Phase::GroupDrop => match ev {
                Event::Succeeded => self.go_initgroups(),
                _ => self.go_fail(DaemonError::SetGidFailed),
            },
            Phase::GroupsInit => match ev {
                Event::Succeeded => self.go_setuid(),
                Event::Unsupported => self.go_setuid(),
                _ => self.go_fail(DaemonError::SupplementaryGroupInitFailed),
            },
            Phase::UserDrop => match ev {
                Event::Succeeded => self.go_final_dir(),
                _ => self.go_fail(DaemonError::SetUidFailed),
            },
            Phase::FinalDir => match ev {
                Event::Succeeded => self.go_after_final_dir(),
                _ => self.go_fail(DaemonError::ChangeDirectoryFailed),
            },
            Phase::InitHook => self.go_complete(),
            Phase::Finalized => Step::Done,
        }
    }
}

} // verus!
