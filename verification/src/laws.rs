use vstd::prelude::*;

use crate::engine::ActionV;
use crate::error::DaemonError;
use crate::engine::EngineV;
use crate::engine::EventV;
use crate::engine::Phase;
use crate::engine::StepV;
use crate::engine::transition;

verus! {

/// The actions a run of the engine emits when driven with the reports `evs`,
/// in order, stopping at the first terminal step. An action answered with
/// `Diverge` is the run's last; a `Fail` or `Done` answer ends the run with
/// no further action.
pub open spec fn run_actions(e: EngineV, evs: Seq<EventV>) -> Seq<ActionV>
    decreases evs.len(),
{
    if evs.len() == 0 {
        Seq::empty()
    } else {
        let t = transition(e, evs[0]);
        match t.1 {
            StepV::Do(a) => seq![a] + run_actions(t.0, evs.drop_first()),
            StepV::Diverge(a) => seq![a],
            StepV::Fail(_) => Seq::empty(),
            StepV::Done => Seq::empty(),
        }
    }
}

/// How far from the terminal phase the engine stands; every transition out
/// of a non-terminal phase strictly lowers it.
pub open spec fn phase_rank(p: Phase) -> nat {
    match p {
        Phase::Boot => 17,
        Phase::PreForkHook => 16,
        Phase::Forking => 15,
        Phase::ChildHook => 14,
        Phase::Streams => 13,
        Phase::ProcName => 12,
        Phase::UmaskStep => 11,
        Phase::Session => 10,
        Phase::AnchorDir => 9,
        Phase::PidFile => 8,
        Phase::NameLookup => 7,
        Phase::ChownPid => 6,
        Phase::GroupDrop => 5,
        Phase::GroupsInit => 4,
        Phase::UserDrop => 3,
        Phase::FinalDir => 2,
        Phase::InitHook => 1,
        Phase::Finalized => 0,
    }
}

/// The report of a driver on whose watch nothing goes wrong: the fork lands
/// in the child with process id `pid`, the reverse lookup resolves to
/// `uname`, and every other action succeeds.
pub open spec fn success_report(e: EngineV, pid: u32, uname: Seq<char>) -> EventV {
    match e.phase {
        Phase::Forking => EventV::ForkedChild { child_pid: pid },
        Phase::NameLookup => EventV::ResolvedName { name: uname },
        _ => EventV::Succeeded,
    }
}

/// Every transition leaves the current phase behind.
pub proof fn lemma_transition_rank_decreases(e: EngineV, ev: EventV)
    requires
        !(e.phase is Finalized),
    ensures
        phase_rank(transition(e, ev).0.phase) < phase_rank(e.phase),
{
    match e.phase {
        Phase::Boot => {},
        Phase::PreForkHook => {},
        Phase::Forking => {},
        Phase::ChildHook => {},
        Phase::Streams => {},
        Phase::ProcName => {},
        Phase::UmaskStep => {},
        Phase::Session => {},
        Phase::AnchorDir => {},
        Phase::PidFile => {},
        Phase::NameLookup => {},
        Phase::ChownPid => {},
        Phase::GroupDrop => {},
        Phase::GroupsInit => {},
        Phase::UserDrop => {},
        Phase::FinalDir => {},
        Phase::InitHook => {},
        Phase::Finalized => {},
    }
}

/// The reports of the all-success driver, from state `e` up to the step that
/// ends the run.
pub open spec fn success_events(e: EngineV, pid: u32, uname: Seq<char>) -> Seq<EventV>
    decreases phase_rank(e.phase),
{
    if e.phase is Finalized {
        Seq::empty()
    } else {
        let r = success_report(e, pid, uname);
        let t = transition(e, r);
        match t.1 {
            StepV::Do(_) => if phase_rank(t.0.phase) < phase_rank(e.phase) {
                seq![r] + success_events(t.0, pid, uname)
            } else {
                seq![r]
            },
            _ => seq![r],
        }
    }
}

/// The actions the engine emits when every step succeeds, from state `e` on.
pub open spec fn success_run(e: EngineV, pid: u32, uname: Seq<char>) -> Seq<ActionV>
    decreases phase_rank(e.phase),
{
    if e.phase is Finalized {
        Seq::empty()
    } else {
        let t = transition(e, success_report(e, pid, uname));
        match t.1 {
            StepV::Do(a) => if phase_rank(t.0.phase) < phase_rank(e.phase) {
                seq![a] + success_run(t.0, pid, uname)
            } else {
                seq![a]
            },
            StepV::Diverge(a) => seq![a],
            _ => Seq::empty(),
        }
    }
}

/// The all-success trace really is a run of the engine: driving it with the
/// all-success reports emits exactly the actions of `success_run`.
pub proof fn lemma_success_run_is_run(e: EngineV, pid: u32, uname: Seq<char>)
    ensures
        run_actions(e, success_events(e, pid, uname)) == success_run(e, pid, uname),
    decreases phase_rank(e.phase),
{
    if e.phase is Finalized {
    } else {
        let r = success_report(e, pid, uname);
        let t = transition(e, r);
        lemma_transition_rank_decreases(e, r);
        match t.1 {
            StepV::Do(a) => {
                let evs = success_events(e, pid, uname);
                assert(evs[0] == r);
                assert(evs.drop_first() =~= success_events(t.0, pid, uname));
                lemma_success_run_is_run(t.0, pid, uname);
            },
            StepV::Diverge(a) => {},
            StepV::Fail(err) => {},
            StepV::Done => {},
        }
    }
}

/// The terminal step of the all-success run from state `e`.
pub open spec fn success_outcome(e: EngineV, pid: u32, uname: Seq<char>) -> StepV
    decreases phase_rank(e.phase),
{
    let t = transition(e, success_report(e, pid, uname));
    if e.phase is Finalized {
        StepV::Done
    } else {
        match t.1 {
            StepV::Do(_) => if phase_rank(t.0.phase) < phase_rank(e.phase) {
                success_outcome(t.0, pid, uname)
            } else {
                t.1
            },
            _ => t.1,
        }
    }
}

/// Success is owed: a configuration whose identity pair is complete or
/// absent, whose ownership request is backed by an identity, and whose umask
/// lies within the permission bits, daemonizes whenever every requested
/// action succeeds — the all-success run ends in `Done`, never in a failure.
pub proof fn lemma_success_owed(e: EngineV, pid: u32, uname: Seq<char>)
    requires
        e.valid_config(),
        e.umask <= 0o777,
    ensures
        success_outcome(e, pid, uname) is Done,
    decreases phase_rank(e.phase),
{
    if e.phase is Finalized {
    } else {
        let r = success_report(e, pid, uname);
        let t = transition(e, r);
        lemma_transition_rank_decreases(e, r);
        match t.1 {
            StepV::Do(_) => {
                lemma_success_owed(t.0, pid, uname);
            },
            StepV::Diverge(_) => {},
            StepV::Fail(err) => {},
            StepV::Done => {},
        }
    }
}

/// A class of actions that one of the stated laws observes.
pub enum ActionClass {
    /// The privilege syscalls: set-group-id, supplementary-group
    /// initialization, set-user-id.
    Privilege,
    /// The working-directory changes.
    WorkDirChange,
    /// The pre-fork hook call and the fork.
    PreForkAndFork,
    /// The fork and the post-fork child hook call.
    ForkAndChildHook,
}

/// Whether `a` belongs to the class `c`.
pub open spec fn in_class(a: ActionV, c: ActionClass) -> bool {
    match c {
        ActionClass::Privilege => a is SetGroupId || a is InitSupplementaryGroups
            || a is SetUserId,
        ActionClass::WorkDirChange => a is ChangeWorkingDir,
        ActionClass::PreForkAndFork => a is InvokePreForkHook || a is Fork,
        ActionClass::ForkAndChildHook => a is Fork || a is InvokePostForkChildHook,
    }
}

/// The subsequence of `s` that belongs to the class `c`, in order.
pub open spec fn class_filter(s: Seq<ActionV>, c: ActionClass) -> Seq<ActionV>
    decreases s.len(),
{
    if s.len() == 0 {
        Seq::empty()
    } else if in_class(s[0], c) {
        seq![s[0]] + class_filter(s.drop_first(), c)
    } else {
        class_filter(s.drop_first(), c)
    }
}

proof fn lemma_class_filter_cons(a: ActionV, s: Seq<ActionV>, c: ActionClass)
    ensures
        in_class(a, c) ==> class_filter(seq![a] + s, c) == seq![a] + class_filter(s, c),
        !in_class(a, c) ==> class_filter(seq![a] + s, c) == class_filter(s, c),
{
    let joined = seq![a] + s;
    assert(joined[0] == a);
    assert(joined.drop_first() =~= s);
}

/// When exactly one of user and group is configured, the very first step of
/// the engine fails with `ConfigInvalid`, whatever the driver reports, and
/// no run performs any action at all: in particular, no fork ever happens.
pub proof fn lemma_unpaired_identity_rejected(e: EngineV, evs: Seq<EventV>)
    requires
        e.phase is Boot,
        (e.user is Some) != (e.group is Some),
    ensures
        forall|ev: EventV| (#[trigger] transition(e, ev)).1 == StepV::Fail(
            DaemonError::ConfigInvalid,
        ),
        run_actions(e, evs) == Seq::<ActionV>::empty(),
{
    if evs.len() > 0 {
        assert(transition(e, evs[0]).1 == StepV::Fail(DaemonError::ConfigInvalid));
    }
}

/// When pid-file ownership transfer is requested but no identity is
/// configured, the very first step fails with `ConfigInvalid`, whatever the
/// driver reports, and no run performs any action.
pub proof fn lemma_chown_without_identity_rejected(e: EngineV, evs: Seq<EventV>)
    requires
        e.phase is Boot,
        e.chown_pid_file,
        e.user is None,
        e.group is None,
    ensures
        forall|ev: EventV| (#[trigger] transition(e, ev)).1 == StepV::Fail(
            DaemonError::ConfigInvalid,
        ),
        run_actions(e, evs) == Seq::<ActionV>::empty(),
{
    if evs.len() > 0 {
        assert(transition(e, evs[0]).1 == StepV::Fail(DaemonError::ConfigInvalid));
    }
}

spec fn priv_expected(e: EngineV, uname: Seq<char>) -> Seq<ActionV> {
    let setgid = ActionV::SetGroupId { gid: e.group->0.id };
    let initgroups = ActionV::InitSupplementaryGroups { name: uname, gid: e.group->0.id };
    let setuid = ActionV::SetUserId { uid: e.user->0.id };
    match e.phase {
        Phase::GroupDrop => seq![initgroups] + (seq![setuid] + Seq::empty()),
        Phase::GroupsInit => seq![setuid] + Seq::empty(),
        Phase::UserDrop => Seq::empty(),
        Phase::FinalDir => Seq::empty(),
        Phase::InitHook => Seq::empty(),
        Phase::Finalized => Seq::empty(),
        _ => seq![setgid] + (seq![initgroups] + (seq![setuid] + Seq::empty())),
    }
}

#[verifier::rlimit(80)]
proof fn lemma_priv_filter(e: EngineV, pid: u32, uname: Seq<char>)
    requires
        e.user is Some,
        e.group is Some,
        e.umask <= 0o777,
        phase_rank(e.phase) <= 6 ==> e.user_name == Some(uname),
    ensures
        class_filter(success_run(e, pid, uname), ActionClass::Privilege) == priv_expected(
            e,
            uname,
        ),
    decreases phase_rank(e.phase),
{
    if e.phase is Finalized {
    } else {
        let r = success_report(e, pid, uname);
        let t = transition(e, r);
        lemma_transition_rank_decreases(e, r);
        match t.1 {
            StepV::Do(a) => {
                lemma_priv_filter(t.0, pid, uname);
                lemma_class_filter_cons(a, success_run(t.0, pid, uname), ActionClass::Privilege);
            },
            StepV::Diverge(a) => {},
            StepV::Fail(err) => {},
            StepV::Done => {},
        }
    }
}

/// With both user and group configured, the privilege syscalls of the
/// all-success run are exactly set-group-id, then supplementary-group
/// initialization, then set-user-id, in that order — set-user-id strictly
/// last, since after it the process could no longer perform the other two.
pub proof fn lemma_privilege_drop_order(e: EngineV, pid: u32, uname: Seq<char>)
    requires
        e.phase is Boot,
        e.user is Some,
        e.group is Some,
        e.umask <= 0o777,
    ensures
        class_filter(success_run(e, pid, uname), ActionClass::Privilege) == seq![
            ActionV::SetGroupId { gid: e.group->0.id },
            ActionV::InitSupplementaryGroups { name: uname, gid: e.group->0.id },
            ActionV::SetUserId { uid: e.user->0.id },
        ],
{
    lemma_priv_filter(e, pid, uname);
    let setgid = ActionV::SetGroupId { gid: e.group->0.id };
    let initgroups = ActionV::InitSupplementaryGroups { name: uname, gid: e.group->0.id };
    let setuid = ActionV::SetUserId { uid: e.user->0.id };
    assert(seq![setgid] + (seq![initgroups] + (seq![setuid] + Seq::empty())) =~= seq![
        setgid,
        initgroups,
        setuid,
    ]);
}

spec fn chdir_expected(e: EngineV) -> Seq<ActionV> {
    let chdir = ActionV::ChangeWorkingDir { path: e.work_dir };
    match e.phase {
        Phase::AnchorDir => seq![chdir] + Seq::empty(),
        Phase::PidFile => seq![chdir] + Seq::empty(),
        Phase::NameLookup => seq![chdir] + Seq::empty(),
        Phase::ChownPid => seq![chdir] + Seq::empty(),
        Phase::GroupDrop => seq![chdir] + Seq::empty(),
        Phase::GroupsInit => seq![chdir] + Seq::empty(),
        Phase::UserDrop => seq![chdir] + Seq::empty(),
        Phase::FinalDir => Seq::empty(),
        Phase::InitHook => Seq::empty(),
        Phase::Finalized => Seq::empty(),
        _ => seq![chdir] + (seq![chdir] + Seq::empty()),
    }
}

proof fn lemma_chdir_filter(e: EngineV, pid: u32, uname: Seq<char>)
    requires
        e.valid_config(),
        e.umask <= 0o777,
    ensures
        class_filter(success_run(e, pid, uname), ActionClass::WorkDirChange) == chdir_expected(e),
    decreases phase_rank(e.phase),
{
    if e.phase is Finalized {
    } else {
        let r = success_report(e, pid, uname);
        let t = transition(e, r);
        lemma_transition_rank_decreases(e, r);
        match t.1 {
            StepV::Do(a) => {
                lemma_chdir_filter(t.0, pid, uname);
                lemma_class_filter_cons(a, success_run(t.0, pid, uname), ActionClass::WorkDirChange);
            },
            StepV::Diverge(a) => {},
            StepV::Fail(err) => {},
            StepV::Done => {},
        }
    }
}

/// The working directory is changed exactly twice on the all-success run —
/// the early anchor and the final re-anchor after the privilege drop — and
/// exactly twice whether an identity is configured or not.
pub proof fn lemma_workdir_changed_twice(e: EngineV, pid: u32, uname: Seq<char>)
    requires
        e.phase is Boot,
        e.valid_config(),
        e.umask <= 0o777,
    ensures
        class_filter(success_run(e, pid, uname), ActionClass::WorkDirChange) == seq![
            ActionV::ChangeWorkingDir { path: e.work_dir },
            ActionV::ChangeWorkingDir { path: e.work_dir },
        ],
        class_filter(success_run(e, pid, uname), ActionClass::WorkDirChange).len() == 2,
{
    lemma_chdir_filter(e, pid, uname);
    let chdir = ActionV::ChangeWorkingDir { path: e.work_dir };
    assert(seq![chdir] + (seq![chdir] + Seq::empty()) =~= seq![chdir, chdir]);
}

spec fn prefork_expected(e: EngineV) -> Seq<ActionV> {
    match e.phase {
        Phase::Boot => if e.has_pre_fork_hook {
            seq![ActionV::InvokePreForkHook] + (seq![ActionV::Fork] + Seq::empty())
        } else {
            seq![ActionV::Fork] + Seq::empty()
        },
        Phase::PreForkHook => seq![ActionV::Fork] + Seq::empty(),
        _ => Seq::empty(),
    }
}

proof fn lemma_prefork_filter(e: EngineV, pid: u32, uname: Seq<char>)
    requires
        e.valid_config(),
    ensures
        class_filter(success_run(e, pid, uname), ActionClass::PreForkAndFork) == prefork_expected(
            e,
        ),
    decreases phase_rank(e.phase),
{
    if e.phase is Finalized {
    } else {
        let r = success_report(e, pid, uname);
        let t = transition(e, r);
        lemma_transition_rank_decreases(e, r);
        match t.1 {
            StepV::Do(a) => {
                lemma_prefork_filter(t.0, pid, uname);
                lemma_class_filter_cons(a, success_run(t.0, pid, uname), ActionClass::PreForkAndFork);
            },
            StepV::Diverge(a) => {},
            StepV::Fail(err) => {},
            StepV::Done => {},
        }
    }
}

/// A bound pre-fork hook is called exactly once, and strictly before the
/// fork: among the hook call and the fork, the all-success run contains
/// exactly the hook call followed by the fork.
pub proof fn lemma_pre_fork_hook_before_fork(e: EngineV, pid: u32, uname: Seq<char>)
    requires
        e.phase is Boot,
        e.valid_config(),
        e.has_pre_fork_hook,
    ensures
        class_filter(success_run(e, pid, uname), ActionClass::PreForkAndFork) == seq![
            ActionV::InvokePreForkHook,
            ActionV::Fork,
        ],
{
    lemma_prefork_filter(e, pid, uname);
    assert(seq![ActionV::InvokePreForkHook] + (seq![ActionV::Fork] + Seq::empty()) =~= seq![
        ActionV::InvokePreForkHook,
        ActionV::Fork,
    ]);
}

spec fn childhook_expected(e: EngineV) -> Seq<ActionV> {
    let tail: Seq<ActionV> = if e.has_child_hook {
        seq![ActionV::InvokePostForkChildHook] + Seq::empty()
    } else {
        Seq::empty()
    };
    match e.phase {
        Phase::Boot => seq![ActionV::Fork] + tail,
        Phase::PreForkHook => seq![ActionV::Fork] + tail,
        Phase::Forking => tail,
        _ => Seq::empty(),
    }
}

proof fn lemma_childhook_filter(e: EngineV, pid: u32, uname: Seq<char>)
    requires
        e.valid_config(),
    ensures
        class_filter(success_run(e, pid, uname), ActionClass::ForkAndChildHook)
            == childhook_expected(e),
    decreases phase_rank(e.phase),
{
    if e.phase is Finalized {
    } else {
        let r = success_report(e, pid, uname);
        let t = transition(e, r);
        lemma_transition_rank_decreases(e, r);
        match t.1 {
            StepV::Do(a) => {
                lemma_childhook_filter(t.0, pid, uname);
                lemma_class_filter_cons(
                    a,
                    success_run(t.0, pid, uname),
                    ActionClass::ForkAndChildHook,
                );
            },
            StepV::Diverge(a) => {},
            StepV::Fail(err) => {},
            StepV::Done => {},
        }
    }
}

/// A bound post-fork child hook is called exactly once on the child path,
/// and strictly after the fork: among the fork and the hook call, the
/// all-success run contains exactly the fork followed by the hook call.
pub proof fn lemma_child_hook_after_fork(e: EngineV, pid: u32, uname: Seq<char>)
    requires
        e.phase is Boot,
        e.valid_config(),
        e.has_child_hook,
    ensures
        class_filter(success_run(e, pid, uname), ActionClass::ForkAndChildHook) == seq![
            ActionV::Fork,
            ActionV::InvokePostForkChildHook,
        ],
{
    lemma_childhook_filter(e, pid, uname);
    assert(seq![ActionV::Fork] + (seq![ActionV::InvokePostForkChildHook] + Seq::empty()) =~= seq![
        ActionV::Fork,
        ActionV::InvokePostForkChildHook,
    ]);
}

/// The position of a privilege syscall in the mandated order: set-group-id
/// first, supplementary-group initialization second, set-user-id third.
pub open spec fn priv_index(a: ActionV) -> int {
    if a is SetGroupId {
        0
    } else if a is InitSupplementaryGroups {
        1
    } else {
        2
    }
}

/// How many privilege syscalls still lie ahead of state `e`.
spec fn priv_count_left(e: EngineV) -> int {
    if e.user is None {
        0
    } else {
        match e.phase {
            Phase::GroupDrop => 2,
            Phase::GroupsInit => 1,
            Phase::UserDrop => 0,
            Phase::FinalDir => 0,
            Phase::InitHook => 0,
            Phase::Finalized => 0,
            _ => 3,
        }
    }
}

spec fn priv_wf(e: EngineV) -> bool {
    &&& (e.user is Some <==> e.group is Some)
    &&& (1 <= phase_rank(e.phase) <= 6 && e.user is Some) ==> e.user_name is Some
}

#[verifier::rlimit(100)]
#[verifier::spinoff_prover]
proof fn lemma_priv_any_run(e: EngineV, evs: Seq<EventV>)
    requires
        priv_wf(e),
    ensures
        ({
            let observed = class_filter(run_actions(e, evs), ActionClass::Privilege);
            &&& observed.len() <= priv_count_left(e)
            &&& forall|i: int|
                0 <= i < observed.len() ==> priv_index(#[trigger] observed[i]) == i + 3
                    - priv_count_left(e)
        }),
    decreases evs.len(),
{
    if evs.len() > 0 {
        let t = transition(e, evs[0]);
        match t.1 {
            StepV::Do(a) => {
                assert(priv_wf(t.0));
                lemma_priv_any_run(t.0, evs.drop_first());
                lemma_class_filter_cons(
                    a,
                    run_actions(t.0, evs.drop_first()),
                    ActionClass::Privilege,
                );
                let observed = class_filter(run_actions(e, evs), ActionClass::Privilege);
                let rest = class_filter(
                    run_actions(t.0, evs.drop_first()),
                    ActionClass::Privilege,
                );
                if in_class(a, ActionClass::Privilege) {
                    assert(priv_index(a) == 3 - priv_count_left(e));
                    assert(priv_count_left(t.0) == priv_count_left(e) - 1);
                    assert(observed == seq![a] + rest);
                    assert forall|i: int|
                        0 <= i < observed.len() implies priv_index(#[trigger] observed[i]) == i + 3
                        - priv_count_left(e) by {
                        if i > 0 {
                            assert(observed[i] == rest[i - 1]);
                        }
                    }
                } else {
                    assert(priv_count_left(t.0) == priv_count_left(e));
                    assert(observed == rest);
                }
                assert(observed.len() <= priv_count_left(e));
            },
            StepV::Diverge(a) => {
                reveal_with_fuel(class_filter, 2);
                assert(seq![a].drop_first() =~= Seq::<ActionV>::empty());
                assert(!in_class(a, ActionClass::Privilege));
            },
            StepV::Fail(err) => {},
            StepV::Done => {},
        }
    }
}

/// In every run of the engine — whatever the driver reports, wherever the
/// run stops — the privilege syscalls appear in the mandated order and
/// without repetition: the first one requested can only be set-group-id,
/// the second only supplementary-group initialization, the third only
/// set-user-id. In particular, set-user-id is never requested before the
/// other two.
pub proof fn lemma_privilege_order_any_run(e: EngineV, evs: Seq<EventV>)
    requires
        e.phase is Boot,
        e.user is Some <==> e.group is Some,
    ensures
        ({
            let observed = class_filter(run_actions(e, evs), ActionClass::Privilege);
            &&& observed.len() <= 3
            &&& forall|i: int|
                0 <= i < observed.len() ==> priv_index(#[trigger] observed[i]) == i
        }),
{
    lemma_priv_any_run(e, evs);
}

/// In the parent branch the run ends right after the fork: the optional
/// pre-fork hook call, the fork, then the parent hook call (or the parent
/// exit), which never hands control back — and never the child hook.
pub proof fn lemma_parent_branch_stops(e: EngineV, child_pid: u32)
    requires
        e.phase is Boot,
        e.valid_config(),
    ensures
        ({
            let evs: Seq<EventV> = if e.has_pre_fork_hook {
                seq![EventV::Start, EventV::Succeeded, EventV::ForkedParent { child_pid }]
            } else {
                seq![EventV::Start, EventV::ForkedParent { child_pid }]
            };
            let parent_act: ActionV = if e.has_parent_hook {
                ActionV::InvokePostForkParentHook
            } else {
                ActionV::ExitParentSuccess
            };
            let acts = run_actions(e, evs);
            &&& acts == if e.has_pre_fork_hook {
                seq![ActionV::InvokePreForkHook, ActionV::Fork, parent_act]
            } else {
                seq![ActionV::Fork, parent_act]
            }
            &&& forall|i: int|
                0 <= i < acts.len() ==> !((#[trigger] acts[i]) is InvokePostForkChildHook)
        }),
{
    let parent_act: ActionV = if e.has_parent_hook {
        ActionV::InvokePostForkParentHook
    } else {
        ActionV::ExitParentSuccess
    };
    if e.has_pre_fork_hook {
        let evs = seq![EventV::Start, EventV::Succeeded, EventV::ForkedParent { child_pid }];
        let e1 = transition(e, evs[0]).0;
        assert(evs.drop_first() =~= seq![EventV::Succeeded, EventV::ForkedParent { child_pid }]);
        let evs1 = evs.drop_first();
        let e2 = transition(e1, evs1[0]).0;
        assert(evs1.drop_first() =~= seq![EventV::ForkedParent { child_pid }]);
        let evs2 = evs1.drop_first();
        assert(run_actions(e2, evs2) == seq![parent_act]);
        assert(run_actions(e1, evs1) == seq![ActionV::Fork] + seq![parent_act]);
        assert(run_actions(e, evs) == seq![ActionV::InvokePreForkHook] + (seq![ActionV::Fork]
            + seq![parent_act]));
        assert(seq![ActionV::InvokePreForkHook] + (seq![ActionV::Fork] + seq![parent_act]) =~= seq![
            ActionV::InvokePreForkHook,
            ActionV::Fork,
            parent_act,
        ]);
    } else {
        let evs = seq![EventV::Start, EventV::ForkedParent { child_pid }];
        let e1 = transition(e, evs[0]).0;
        assert(evs.drop_first() =~= seq![EventV::ForkedParent { child_pid }]);
        let evs1 = evs.drop_first();
        assert(run_actions(e1, evs1) == seq![parent_act]);
        assert(run_actions(e, evs) == seq![ActionV::Fork] + seq![parent_act]);
        assert(seq![ActionV::Fork] + seq![parent_act] =~= seq![ActionV::Fork, parent_act]);
    }
}

} // verus!

