//! Lifecycle orchestration as a pure state machine.
//!
//! The orchestrator sequences startup (defensive cleanup, certificate
//! generation, trust installation, resolution override, serving) and
//! teardown.  The surrounding binary performs each returned action and feeds
//! the resulting event back in; every decision lives here, where it is
//! verified.  Whatever ends the serving phase — a listener failure or the
//! interrupt signal — the machine passes through teardown exactly once
//! before it is done.

use vstd::prelude::*;
use crate::errors::MimikryError;
use crate::hosts;
use crate::trust;
use crate::trust::SysStep;

verus! {

#[derive(Clone, Copy, Debug, PartialEq, Eq, Structural)]
pub enum Phase {
    /// Nothing started yet; defensive cleanup runs on entry.
    Idle,
    /// The certificate chain is being generated.
    Generating,
    /// The authority certificate is being installed as a trust anchor.
    TrustInstalling,
    /// The resolution override lines are being added.
    ResolutionOverriding,
    /// Listeners run until one stops or the interrupt signal arrives.
    Serving,
    /// Override removal and trust removal run, in that order.
    TearingDown { failed: bool },
    /// The process exits; `graceful` decides the exit status.
    Done { graceful: bool },
}

#[derive(Clone, Copy, Debug, PartialEq, Eq, Structural)]
pub enum Event {
    CleanupFinished,
    GenerationSucceeded,
    GenerationFailed,
    TrustInstallSucceeded,
    TrustInstallFailed,
    OverrideSucceeded,
    OverrideFailed,
    ListenerStopped,
    InterruptReceived,
    TeardownFinished,
}

#[derive(Clone, Copy, Debug, PartialEq, Eq, Structural)]
pub enum Action {
    RunDefensiveCleanup,
    GenerateCertificates,
    InstallTrust,
    AddResolutionOverride,
    StartServing,
    RunTeardown,
    Exit,
    /// The event does not belong to the current phase; nothing is done.
    Ignore,
}

/// The transition table.  A fatal failure after `Idle` always routes through
/// `TearingDown`, so nothing half-installed is ever left behind; only the
/// interrupt signal makes the run graceful.
pub open spec fn spec_step(p: Phase, e: Event) -> (Phase, Action) {
    match (p, e) {
        (Phase::Idle, Event::CleanupFinished) => (Phase::Generating, Action::GenerateCertificates),
        (Phase::Generating, Event::GenerationSucceeded) => (
            Phase::TrustInstalling,
            Action::InstallTrust,
        ),
        (Phase::Generating, Event::GenerationFailed) => (
            Phase::TearingDown { failed: true },
            Action::RunTeardown,
        ),
        (Phase::TrustInstalling, Event::TrustInstallSucceeded) => (
            Phase::ResolutionOverriding,
            Action::AddResolutionOverride,
        ),
        (Phase::TrustInstalling, Event::TrustInstallFailed) => (
            Phase::TearingDown { failed: true },
            Action::RunTeardown,
        ),
        (Phase::ResolutionOverriding, Event::OverrideSucceeded) => (
            Phase::Serving,
            Action::StartServing,
        ),
        (Phase::ResolutionOverriding, Event::OverrideFailed) => (
            Phase::TearingDown { failed: true },
            Action::RunTeardown,
        ),
        (Phase::Serving, Event::ListenerStopped) => (
            Phase::TearingDown { failed: true },
            Action::RunTeardown,
        ),
        (Phase::Serving, Event::InterruptReceived) => (
            Phase::TearingDown { failed: false },
            Action::RunTeardown,
        ),
        (Phase::TearingDown { failed }, Event::TeardownFinished) => (
            Phase::Done { graceful: !failed },
            Action::Exit,
        ),
        (q, _) => (q, Action::Ignore),
    }
}

/// The machine starts idle and first cleans up residue of any earlier run.
pub fn initial() -> (r: (Phase, Action))
    ensures
        r == (Phase::Idle, Action::RunDefensiveCleanup),
{
    (Phase::Idle, Action::RunDefensiveCleanup)
}

/// One transition of the orchestrator.
pub fn step(p: Phase, e: Event) -> (r: (Phase, Action))
    ensures
        r == spec_step(p, e),
{
    match (p, e) {
        (Phase::Idle, Event::CleanupFinished) => (Phase::Generating, Action::GenerateCertificates),
        (Phase::Generating, Event::GenerationSucceeded) => (
            Phase::TrustInstalling,
            Action::InstallTrust,
        ),
        (Phase::Generating, Event::GenerationFailed) => (
            Phase::TearingDown { failed: true },
            Action::RunTeardown,
        ),
        (Phase::TrustInstalling, Event::TrustInstallSucceeded) => (
            Phase::ResolutionOverriding,
            Action::AddResolutionOverride,
        ),
        (Phase::TrustInstalling, Event::TrustInstallFailed) => (
            Phase::TearingDown { failed: true },
            Action::RunTeardown,
        ),
        (Phase::ResolutionOverriding, Event::OverrideSucceeded) => (
            Phase::Serving,
            Action::StartServing,
        ),
        (Phase::ResolutionOverriding, Event::OverrideFailed) => (
            Phase::TearingDown { failed: true },
            Action::RunTeardown,
        ),
        (Phase::Serving, Event::ListenerStopped) => (
            Phase::TearingDown { failed: true },
            Action::RunTeardown,
        ),
        (Phase::Serving, Event::InterruptReceived) => (
            Phase::TearingDown { failed: false },
            Action::RunTeardown,
        ),
        (Phase::TearingDown { failed }, Event::TeardownFinished) => (
            Phase::Done { graceful: !failed },
            Action::Exit,
        ),
        (q, _) => (q, Action::Ignore),
    }
}

/// The exit status: zero exactly on a graceful, signal-triggered shutdown.
pub fn exit_status(p: Phase) -> (r: i32)
    ensures
        p == (Phase::Done { graceful: true }) ==> r == 0,
        p != (Phase::Done { graceful: true }) ==> r == 1,
{
    match p {
        Phase::Done { graceful: true } => 0,
        _ => 1,
    }
}

/// The run can only end after teardown: `Done` is first entered from
/// `TearingDown`, so no path skips cleanup.
pub proof fn lemma_done_only_after_teardown(p: Phase, e: Event)
    ensures
        spec_step(p, e).0 is Done && !(p is Done) ==> p is TearingDown,
{
}

/// Whichever event ends the serving phase — listener failure or the
/// interrupt signal — the machine moves to teardown; there is no path out of
/// `Serving` that avoids it.
pub proof fn lemma_serving_always_tears_down(e: Event)
    ensures
        spec_step(Phase::Serving, e).0 != Phase::Serving ==> spec_step(
            Phase::Serving,
            e,
        ).0 is TearingDown,
        e is ListenerStopped || e is InterruptReceived ==> spec_step(Phase::Serving, e)
            == (Phase::TearingDown { failed: !(e is InterruptReceived) }, Action::RunTeardown),
{
}

/// An interrupt during serving leads through teardown to a graceful exit.
pub proof fn lemma_interrupt_is_graceful()
    ensures
        spec_step(Phase::Serving, Event::InterruptReceived) == (
            Phase::TearingDown { failed: false },
            Action::RunTeardown,
        ),
        spec_step(Phase::TearingDown { failed: false }, Event::TeardownFinished) == (
            Phase::Done { graceful: true },
            Action::Exit,
        ),
{
}

/// The defensive cleanup and teardown work: first the mapping-file rewrite
/// (`None` when the file holds no tagged line and must be left untouched),
/// then the trust-anchor removal steps, in that order, so that clients stop
/// being redirected even if trust removal fails.
pub struct CleanupPlan {
    pub hosts_rewrite: Option<Vec<String>>,
    pub trust_steps: Vec<SysStep>,
}

/// Compute the whole cleanup: drop every tagged line from the mapping file's
/// lines and remove the trust anchor.  It relies only on the sentinel tag
/// and fixed names, never on what an earlier run remembered, so it erases
/// the residue of a crashed session just as well as this run's own state.
pub fn cleanup_system(
    hosts_lines: &Vec<String>,
    anchor_exists: bool,
    user_home: &Option<String>,
) -> (r: CleanupPlan)
    ensures
        r.hosts_rewrite matches Some(kept) ==> kept.deep_view() == hosts::spec_kept_lines(
            hosts_lines.deep_view(),
        ) && hosts::spec_has_tagged(hosts_lines.deep_view()),
        r.hosts_rewrite is None ==> !hosts::spec_has_tagged(hosts_lines.deep_view()),
        trust::spec_remove_steps(
            r.trust_steps@,
            anchor_exists,
            match user_home {
                Some(h) => Some(h@),
                None => None,
            },
        ),
{
    CleanupPlan {
        hosts_rewrite: hosts::cleanup_hosts(hosts_lines),
        trust_steps: trust::remove_trust(anchor_exists, user_home),
    }
}

/// The single startup precondition: the process must already hold elevated
/// privileges.  Absence is fatal before anything is changed.
pub fn check_privilege(uid: u32) -> (r: Result<(), MimikryError>)
    ensures
        r is Ok <==> uid == 0,
        r matches Err(e) ==> e is Privilege,
{
    if uid == 0 {
        Ok(())
    } else {
        Err(MimikryError::Privilege)
    }
}

/// Relies on users::get_current_uid: the user id of the calling process.
/// It depends on the environment, so nothing is promised of the value.
#[verifier::external_body]
fn current_uid() -> u32 {
    users::get_current_uid()
}

/// Check the startup precondition against the running process: succeeds
/// exactly when the process runs as the superuser, and fails with the
/// privilege error otherwise.
pub fn ensure_privileged() -> (r: Result<u32, MimikryError>)
    ensures
        r matches Ok(uid) ==> uid == 0,
        r matches Err(e) ==> e is Privilege,
{
    let uid = current_uid();
    match check_privilege(uid) {
        Ok(()) => Ok(uid),
        Err(e) => Err(e),
    }
}

/// Every fatal startup failure routes through teardown with a failed mark,
/// never straight to the end of the run.
pub proof fn lemma_startup_failure_tears_down(p: Phase, e: Event)
    requires
        (p is Generating && e is GenerationFailed) || (p is TrustInstalling
            && e is TrustInstallFailed) || (p is ResolutionOverriding && e is OverrideFailed),
    ensures
        spec_step(p, e) == (Phase::TearingDown { failed: true }, Action::RunTeardown),
{
}

/// The phase reached from a fresh start after a sequence of events.
pub open spec fn spec_run(events: Seq<Event>) -> Phase
    decreases events.len(),
{
    if events.len() == 0 {
        Phase::Idle
    } else {
        spec_step(spec_run(events.drop_last()), events.last()).0
    }
}

/// How often a run entered the teardown phase.
pub open spec fn count_teardown_entries(events: Seq<Event>) -> int
    decreases events.len(),
{
    if events.len() == 0 {
        0
    } else {
        count_teardown_entries(events.drop_last()) + if !(spec_run(
            events.drop_last(),
        ) is TearingDown) && spec_run(events) is TearingDown {
            1int
        } else {
            0
        }
    }
}

/// Teardown runs exactly once, whatever fired: over any event sequence from
/// a fresh start, the machine has entered teardown exactly once when it is
/// tearing down or done, and never before.
pub proof fn lemma_teardown_exactly_once(events: Seq<Event>)
    ensures
        spec_run(events) is TearingDown || spec_run(events) is Done ==> count_teardown_entries(
            events,
        ) == 1,
        !(spec_run(events) is TearingDown || spec_run(events) is Done)
            ==> count_teardown_entries(events) == 0,
    decreases events.len(),
{
    if events.len() > 0 {
        lemma_teardown_exactly_once(events.drop_last());
    }
}

} // verus!
