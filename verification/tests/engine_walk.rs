//! Driving the engine through complete sequences and checking the exact
//! order of the actions it requests.

use daemonize_me::Daemon;
use daemonize_me::DaemonError;
use daemonize_me::Group;
use daemonize_me::User;
use daemonize_me::engine::Action;
use daemonize_me::engine::Engine;
use daemonize_me::engine::Event;
use daemonize_me::engine::Step;
use daemonize_me::process::Stdio;

fn svc_user() -> User {
    User { id: 42, name: String::from("svc") }
}

fn svc_group() -> Group {
    Group { id: 10, name: String::from("staff") }
}

/// The success report for one requested action, as a cooperative driver
/// would send it: the fork lands in the child `pid`, the reverse lookup
/// resolves to `uname`, everything else succeeds.
fn success_event(action: &Action, pid: u32, uname: &str) -> Event {
    match action {
        Action::Fork => Event::ForkedChild { child_pid: pid },
        Action::LookupUserName { .. } => Event::ResolvedName { name: String::from(uname) },
        _ => Event::Succeeded,
    }
}

/// Drives `engine` with all-success reports and returns the actions it
/// requested, in order.
fn collect_success_actions(engine: &mut Engine, pid: u32, uname: &str) -> (Vec<Action>, bool) {
    let mut actions: Vec<Action> = Vec::new();
    let mut ev = Event::Start;
    loop {
        match engine.next(ev) {
            Step::Do(a) => {
                ev = success_event(&a, pid, uname);
                actions.push(a);
            }
            Step::Diverge(a) => {
                actions.push(a);
                return (actions, false);
            }
            Step::Fail(_) => return (actions, false),
            Step::Done => return (actions, true),
        }
    }
}

#[test]
fn full_sequence_with_identity_and_hooks() {
    let daemon = Daemon::new()
        .work_dir("/srv")
        .pid_file("/tmp/me.pid", Some(true))
        .user(svc_user())
        .group(svc_group())
        .name("mydaemon")
        .setup_pre_fork_hook()
        .setup_post_fork_child_hook()
        .setup_post_init_hook();
    let mut engine = daemon.start();
    let (actions, done) = collect_success_actions(&mut engine, 1234, "svc");
    assert!(done);
    let devnull = Stdio::devnull();
    let expected = vec![
        Action::InvokePreForkHook,
        Action::Fork,
        Action::InvokePostForkChildHook,
        Action::RedirectStreams { stdin: devnull, stdout: devnull, stderr: devnull },
        Action::SetProcessName { name: String::from("mydaemon") },
        Action::ApplyUmask { mask: 0o027 },
        Action::CreateSession,
        Action::ChangeWorkingDir { path: String::from("/srv") },
        Action::WritePidFile {
            path: String::from("/tmp/me.pid"),
            contents: String::from("1234"),
        },
        Action::LookupUserName { uid: 42 },
        Action::ChownPidFile { path: String::from("/tmp/me.pid"), uid: 42, gid: 10 },
        Action::SetGroupId { gid: 10 },
        Action::InitSupplementaryGroups { name: String::from("svc"), gid: 10 },
        Action::SetUserId { uid: 42 },
        Action::ChangeWorkingDir { path: String::from("/srv") },
        Action::InvokePostInitHook,
    ];
    assert_eq!(actions, expected);
}

#[test]
fn privilege_syscalls_in_order_setuid_last() {
    let daemon = Daemon::new().user(svc_user()).group(svc_group());
    let mut engine = daemon.start();
    let (actions, done) = collect_success_actions(&mut engine, 77, "svc");
    assert!(done);
    let privilege: Vec<&Action> = actions
        .iter()
        .filter(|a| {
            matches!(
                a,
                Action::SetGroupId { .. }
                    | Action::InitSupplementaryGroups { .. }
                    | Action::SetUserId { .. }
            )
        })
        .collect();
    assert_eq!(privilege.len(), 3);
    assert_eq!(*privilege[0], Action::SetGroupId { gid: 10 });
    assert_eq!(
        *privilege[1],
        Action::InitSupplementaryGroups { name: String::from("svc"), gid: 10 }
    );
    assert_eq!(*privilege[2], Action::SetUserId { uid: 42 });
    // set-user-id is strictly the last privilege syscall of the whole run
    let last_priv = actions
        .iter()
        .rposition(|a| {
            matches!(
                a,
                Action::SetGroupId { .. }
                    | Action::InitSupplementaryGroups { .. }
                    | Action::SetUserId { .. }
            )
        })
        .unwrap();
    assert!(matches!(actions[last_priv], Action::SetUserId { .. }));
}

#[test]
fn workdir_changed_exactly_twice_with_identity() {
    let daemon = Daemon::new().work_dir("/data").user(svc_user()).group(svc_group());
    let mut engine = daemon.start();
    let (actions, done) = collect_success_actions(&mut engine, 5, "svc");
    assert!(done);
    let chdirs: Vec<&Action> =
        actions.iter().filter(|a| matches!(a, Action::ChangeWorkingDir { .. })).collect();
    assert_eq!(chdirs.len(), 2);
    assert_eq!(*chdirs[0], Action::ChangeWorkingDir { path: String::from("/data") });
    assert_eq!(*chdirs[1], Action::ChangeWorkingDir { path: String::from("/data") });
}

#[test]
fn workdir_changed_exactly_twice_without_identity() {
    let daemon = Daemon::new();
    let mut engine = daemon.start();
    let (actions, done) = collect_success_actions(&mut engine, 5, "unused");
    assert!(done);
    let chdirs = actions.iter().filter(|a| matches!(a, Action::ChangeWorkingDir { .. })).count();
    assert_eq!(chdirs, 2);
}

#[test]
fn pre_fork_hook_once_before_fork() {
    let daemon = Daemon::new().setup_pre_fork_hook();
    let mut engine = daemon.start();
    let (actions, done) = collect_success_actions(&mut engine, 5, "unused");
    assert!(done);
    let hook_calls = actions.iter().filter(|a| matches!(a, Action::InvokePreForkHook)).count();
    assert_eq!(hook_calls, 1);
    let hook_at = actions.iter().position(|a| matches!(a, Action::InvokePreForkHook)).unwrap();
    let fork_at = actions.iter().position(|a| matches!(a, Action::Fork)).unwrap();
    assert!(hook_at < fork_at);
    assert_eq!(actions.iter().filter(|a| matches!(a, Action::Fork)).count(), 1);
}

#[test]
fn child_hook_once_after_fork_in_child_branch_only() {
    let daemon = Daemon::new().setup_post_fork_child_hook();
    let mut engine = daemon.start();
    let (actions, done) = collect_success_actions(&mut engine, 5, "unused");
    assert!(done);
    let hook_calls =
        actions.iter().filter(|a| matches!(a, Action::InvokePostForkChildHook)).count();
    assert_eq!(hook_calls, 1);
    let fork_at = actions.iter().position(|a| matches!(a, Action::Fork)).unwrap();
    let hook_at =
        actions.iter().position(|a| matches!(a, Action::InvokePostForkChildHook)).unwrap();
    assert!(fork_at < hook_at);

    // parent branch: the run ends at the fork, no child hook is requested
    let daemon = Daemon::new().setup_post_fork_child_hook();
    let mut engine = daemon.start();
    assert_eq!(engine.next(Event::Start), Step::Do(Action::Fork));
    let step = engine.next(Event::ForkedParent { child_pid: 999 });
    assert_eq!(step, Step::Diverge(Action::ExitParentSuccess));
}

#[test]
fn parent_branch_calls_parent_hook() {
    let daemon = Daemon::new().setup_post_fork_parent_hook();
    let mut engine = daemon.start();
    assert_eq!(engine.next(Event::Start), Step::Do(Action::Fork));
    let step = engine.next(Event::ForkedParent { child_pid: 999 });
    assert_eq!(step, Step::Diverge(Action::InvokePostForkParentHook));
}

#[test]
fn user_without_group_is_config_invalid_and_no_fork() {
    let daemon = Daemon::new().user(svc_user());
    let mut engine = daemon.start();
    let step = engine.next(Event::Start);
    assert_eq!(step, Step::Fail(DaemonError::ConfigInvalid));
    // the engine is finalized: nothing further is requested, so no fork ever
    assert_eq!(engine.next(Event::Succeeded), Step::Done);
}

#[test]
fn group_without_user_is_config_invalid() {
    let daemon = Daemon::new().group(svc_group());
    let mut engine = daemon.start();
    assert_eq!(engine.next(Event::Start), Step::Fail(DaemonError::ConfigInvalid));
}

#[test]
fn chown_without_identity_is_config_invalid() {
    let daemon = Daemon::new().pid_file("/tmp/me.pid", Some(true));
    let mut engine = daemon.start();
    assert_eq!(engine.next(Event::Start), Step::Fail(DaemonError::ConfigInvalid));
}

#[test]
fn chown_with_identity_not_requested_when_flag_absent() {
    let daemon =
        Daemon::new().pid_file("/tmp/me.pid", None).user(svc_user()).group(svc_group());
    let mut engine = daemon.start();
    let (actions, done) = collect_success_actions(&mut engine, 8, "svc");
    assert!(done);
    assert_eq!(actions.iter().filter(|a| matches!(a, Action::ChownPidFile { .. })).count(), 0);
}

#[test]
fn invalid_umask_rejected() {
    let daemon = Daemon::new().umask(0o7777);
    let mut engine = daemon.start();
    let mut ev = Event::Start;
    let fail = loop {
        match engine.next(ev) {
            Step::Do(a) => ev = success_event(&a, 1, "unused"),
            step => break step,
        }
    };
    assert_eq!(fail, Step::Fail(DaemonError::InvalidUmaskBits));
}
