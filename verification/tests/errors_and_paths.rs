//! Failure paths, pid-path resolution, pid-file contents, stream
//! redirection plans, and the builder's defaults.

use daemonize_me::Daemon;
use daemonize_me::DaemonError;
use daemonize_me::Group;
use daemonize_me::User;
use daemonize_me::decimal::decimal_u32;
use daemonize_me::engine::Action;
use daemonize_me::engine::Engine;
use daemonize_me::engine::Event;
use daemonize_me::engine::Step;
use daemonize_me::process::PidType;
use daemonize_me::process::ProcessInfo;
use daemonize_me::process::Stdio;
use daemonize_me::process::StdioImp;
use daemonize_me::process::redirect_stdio;

fn svc_user() -> User {
    User { id: 42, name: String::from("svc") }
}

fn svc_group() -> Group {
    Group { id: 10, name: String::from("staff") }
}

/// Drives the engine with success reports until the action `upto` is
/// requested, then reports `outcome` for it and returns the engine's answer.
fn fail_at(engine: &mut Engine, upto: fn(&Action) -> bool, outcome: Event) -> Step {
    let mut ev = Event::Start;
    loop {
        match engine.next(ev) {
            Step::Do(a) => {
                if upto(&a) {
                    return engine.next(outcome);
                }
                ev = match a {
                    Action::Fork => Event::ForkedChild { child_pid: 7 },
                    Action::LookupUserName { .. } => {
                        Event::ResolvedName { name: String::from("svc") }
                    }
                    _ => Event::Succeeded,
                };
            }
            step => return step,
        }
    }
}

fn full_daemon() -> Daemon {
    Daemon::new()
        .pid_file("/tmp/d.pid", Some(true))
        .user(svc_user())
        .group(svc_group())
        .name("d")
}

#[test]
fn fork_failure_reported() {
    let mut engine = Daemon::new().start();
    let step = fail_at(&mut engine, |a| matches!(a, Action::Fork), Event::Failed);
    assert_eq!(step, Step::Fail(DaemonError::ForkFailed));
}

#[test]
fn stream_redirect_failure_reported() {
    let mut engine = Daemon::new().start();
    let step = fail_at(&mut engine, |a| matches!(a, Action::RedirectStreams { .. }), Event::Failed);
    assert_eq!(step, Step::Fail(DaemonError::StreamRedirectFailed));
}

#[test]
fn proc_name_failure_and_unsupported_reported() {
    let mut engine = Daemon::new().name("x").start();
    let step = fail_at(&mut engine, |a| matches!(a, Action::SetProcessName { .. }), Event::Failed);
    assert_eq!(step, Step::Fail(DaemonError::ProcessNameFailed));

    let mut engine = Daemon::new().name("x").start();
    let step =
        fail_at(&mut engine, |a| matches!(a, Action::SetProcessName { .. }), Event::Unsupported);
    assert_eq!(step, Step::Fail(DaemonError::UnsupportedOnPlatform));
}

#[test]
fn no_proc_name_no_unsupported_error() {
    // with no name requested, no display-name action is ever requested
    let mut engine = Daemon::new().start();
    let mut ev = Event::Start;
    loop {
        match engine.next(ev) {
            Step::Do(a) => {
                assert!(!matches!(a, Action::SetProcessName { .. }));
                ev = match a {
                    Action::Fork => Event::ForkedChild { child_pid: 7 },
                    _ => Event::Succeeded,
                };
            }
            Step::Done => break,
            step => panic!("unexpected step {:?}", step),
        }
    }
}

#[test]
fn session_failure_reported() {
    let mut engine = Daemon::new().start();
    let step = fail_at(&mut engine, |a| matches!(a, Action::CreateSession), Event::Failed);
    assert_eq!(step, Step::Fail(DaemonError::SetSessionFailed));
}

#[test]
fn chdir_failure_reported() {
    let mut engine = Daemon::new().start();
    let step = fail_at(&mut engine, |a| matches!(a, Action::ChangeWorkingDir { .. }), Event::Failed);
    assert_eq!(step, Step::Fail(DaemonError::ChangeDirectoryFailed));
}

#[test]
fn write_pid_failure_reported() {
    let mut engine = Daemon::new().pid_file("/tmp/d.pid", None).start();
    let step = fail_at(&mut engine, |a| matches!(a, Action::WritePidFile { .. }), Event::Failed);
    assert_eq!(step, Step::Fail(DaemonError::WritePidFailed));
}

#[test]
fn reverse_lookup_failure_is_invalid_user() {
    let mut engine = full_daemon().start();
    let step = fail_at(&mut engine, |a| matches!(a, Action::LookupUserName { .. }), Event::Failed);
    assert_eq!(step, Step::Fail(DaemonError::InvalidUser));
}

#[test]
fn chown_failure_reported() {
    let mut engine = full_daemon().start();
    let step = fail_at(&mut engine, |a| matches!(a, Action::ChownPidFile { .. }), Event::Failed);
    assert_eq!(step, Step::Fail(DaemonError::ChownPidFailed));
}

#[test]
fn setgid_failure_reported() {
    let mut engine = full_daemon().start();
    let step = fail_at(&mut engine, |a| matches!(a, Action::SetGroupId { .. }), Event::Failed);
    assert_eq!(step, Step::Fail(DaemonError::SetGidFailed));
}

#[test]
fn initgroups_failure_reported_but_unsupported_continues() {
    let mut engine = full_daemon().start();
    let step = fail_at(
        &mut engine,
        |a| matches!(a, Action::InitSupplementaryGroups { .. }),
        Event::Failed,
    );
    assert_eq!(step, Step::Fail(DaemonError::SupplementaryGroupInitFailed));

    // an unsupported platform is non-fatal: set-user-id still follows
    let mut engine = full_daemon().start();
    let step = fail_at(
        &mut engine,
        |a| matches!(a, Action::InitSupplementaryGroups { .. }),
        Event::Unsupported,
    );
    assert_eq!(step, Step::Do(Action::SetUserId { uid: 42 }));
}

#[test]
fn setuid_failure_reported() {
    let mut engine = full_daemon().start();
    let step = fail_at(&mut engine, |a| matches!(a, Action::SetUserId { .. }), Event::Failed);
    assert_eq!(step, Step::Fail(DaemonError::SetUidFailed));
}

#[test]
fn pid_num_synthesizes_runtime_dir_path() {
    let engine = Daemon::new().pid_num(42, None).start();
    assert_eq!(engine.pid_path.as_deref(), Some("/run/42.pid"));
}

#[test]
fn pid_type_resolution() {
    assert_eq!(PidType::Num(42).resolve_path(), "/run/42.pid");
    assert_eq!(PidType::Num(0).resolve_path(), "/run/0.pid");
    assert_eq!(PidType::File(String::from("/var/run/me.pid")).resolve_path(), "/var/run/me.pid");
}

#[test]
fn pid_file_contents_exact_decimal() {
    let mut engine = Daemon::new().pid_file("/tmp/d.pid", None).start();
    let mut ev = Event::Start;
    let contents = loop {
        match engine.next(ev) {
            Step::Do(Action::WritePidFile { contents, .. }) => break contents,
            Step::Do(a) => {
                ev = match a {
                    Action::Fork => Event::ForkedChild { child_pid: 1234 },
                    _ => Event::Succeeded,
                };
            }
            step => panic!("unexpected step {:?}", step),
        }
    };
    assert_eq!(contents, "1234");
}

#[test]
fn decimal_rendering() {
    assert_eq!(decimal_u32(0), "0");
    assert_eq!(decimal_u32(7), "7");
    assert_eq!(decimal_u32(10), "10");
    assert_eq!(decimal_u32(1234), "1234");
    assert_eq!(decimal_u32(4294967295), "4294967295");
}

#[test]
fn redirect_plan_all_devnull() {
    let devnull = Stdio::devnull();
    let plan = redirect_stdio(&devnull, &devnull, &devnull, 5);
    assert_eq!(plan, vec![(5, 0), (5, 1), (5, 2)]);
}

#[test]
fn redirect_plan_with_caller_files() {
    let devnull = Stdio::devnull();
    let out = Stdio::from_fd(7);
    let err = Stdio::from_fd(9);
    let plan = redirect_stdio(&devnull, &out, &err, 5);
    assert_eq!(plan, vec![(5, 0), (7, 1), (9, 2)]);
}

#[test]
fn builder_defaults() {
    let d = Daemon::new();
    assert_eq!(d.chdir, "/");
    assert!(d.pid.is_none());
    assert!(!d.chown_pid_file);
    assert!(d.user.is_none());
    assert!(d.group.is_none());
    assert_eq!(d.umask, 0o027);
    assert!(matches!(d.stdin.inner, StdioImp::Devnull));
    assert!(matches!(d.stdout.inner, StdioImp::Devnull));
    assert!(matches!(d.stderr.inner, StdioImp::Devnull));
    assert!(d.name.is_none());
    assert!(!d.has_pre_fork_hook);
    assert!(!d.has_parent_hook);
    assert!(!d.has_child_hook);
    assert!(!d.has_init_hook);
}

#[test]
fn builder_stream_directives() {
    let d = Daemon::new().stdout(Stdio::from_fd(7)).stderr(Stdio::from_fd(9));
    assert!(matches!(d.stdin.inner, StdioImp::Devnull));
    assert!(matches!(d.stdout.inner, StdioImp::RedirectToFd(7)));
    assert!(matches!(d.stderr.inner, StdioImp::RedirectToFd(9)));
}

#[test]
fn group_copy_user_requires_user() {
    let r = Daemon::new().group_copy_user();
    assert!(matches!(r, Err(DaemonError::InvalidUser)));
}

#[test]
fn group_copy_user_copies_root() {
    let d = Daemon::new().user(User::from_name("root").unwrap()).group_copy_user().unwrap();
    let group = d.group.clone().unwrap();
    assert_eq!(group.name, "root");
}

#[test]
fn process_info_defaults() {
    let info = ProcessInfo::new();
    assert!(!info.have_chown_pid_file());
    assert!(!info.have_pid());
    assert_eq!(info.umask, 0);
    assert_eq!(info.chdir, "");
}

#[test]
fn error_messages() {
    assert_eq!(DaemonError::ConfigInvalid.message(), "invalid daemon configuration");
    assert_eq!(DaemonError::ForkFailed.message(), "unable to fork");
    assert_eq!(DaemonError::SetUidFailed.message(), "failed to set uid");
    assert_eq!(DaemonError::SetGidFailed.message(), "failed to set gid");
}
