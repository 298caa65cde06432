use mimikry::hosts::is_tagged;
use mimikry::lifecycle::{
    check_privilege, cleanup_system, exit_status, initial, step, Action, Event, Phase,
};
use mimikry::trust::{OnFailure, SysStep};

#[test]
fn startup_runs_defensive_cleanup_first() {
    let (phase, action) = initial();
    assert_eq!(phase, Phase::Idle);
    assert_eq!(action, Action::RunDefensiveCleanup);
}

#[test]
fn graceful_run_walks_every_phase_and_tears_down_once() {
    let (p, a) = initial();
    assert_eq!(a, Action::RunDefensiveCleanup);
    let (p, a) = step(p, Event::CleanupFinished);
    assert_eq!((p, a), (Phase::Generating, Action::GenerateCertificates));
    let (p, a) = step(p, Event::GenerationSucceeded);
    assert_eq!((p, a), (Phase::TrustInstalling, Action::InstallTrust));
    let (p, a) = step(p, Event::TrustInstallSucceeded);
    assert_eq!((p, a), (Phase::ResolutionOverriding, Action::AddResolutionOverride));
    let (p, a) = step(p, Event::OverrideSucceeded);
    assert_eq!((p, a), (Phase::Serving, Action::StartServing));
    let (p, a) = step(p, Event::InterruptReceived);
    assert_eq!((p, a), (Phase::TearingDown { failed: false }, Action::RunTeardown));
    let (p, a) = step(p, Event::TeardownFinished);
    assert_eq!((p, a), (Phase::Done { graceful: true }, Action::Exit));
    assert_eq!(exit_status(p), 0);
}

#[test]
fn listener_failure_still_tears_down_but_exits_nonzero() {
    let (p, a) = step(Phase::Serving, Event::ListenerStopped);
    assert_eq!((p, a), (Phase::TearingDown { failed: true }, Action::RunTeardown));
    let (p, _) = step(p, Event::TeardownFinished);
    assert_eq!(p, Phase::Done { graceful: false });
    assert_eq!(exit_status(p), 1);
}

#[test]
fn startup_failures_route_through_teardown() {
    for (phase, event) in [
        (Phase::Generating, Event::GenerationFailed),
        (Phase::TrustInstalling, Event::TrustInstallFailed),
        (Phase::ResolutionOverriding, Event::OverrideFailed),
    ] {
        let (p, a) = step(phase, event);
        assert_eq!((p, a), (Phase::TearingDown { failed: true }, Action::RunTeardown));
    }
}

#[test]
fn foreign_events_are_ignored() {
    let (p, a) = step(Phase::Serving, Event::CleanupFinished);
    assert_eq!((p, a), (Phase::Serving, Action::Ignore));
    let (p, a) = step(Phase::Idle, Event::InterruptReceived);
    assert_eq!((p, a), (Phase::Idle, Action::Ignore));
}

#[test]
fn privilege_check_accepts_only_the_superuser() {
    assert!(check_privilege(0).is_ok());
    let err = check_privilege(1000).unwrap_err();
    assert_eq!(err.message(), "Root privileges required. Please run with sudo.");
}

#[test]
fn fresh_startup_with_stale_residue_cleans_both_stores() {
    // Leftovers of a crashed run: stale tagged lines and a stale anchor file.
    let file = vec![
        "127.0.0.1 localhost".to_string(),
        "127.0.0.1 stale.test #mimikry-entry".to_string(),
    ];
    let plan = cleanup_system(&file, true, &Some("/home/alice".to_string()));
    let rewritten = plan.hosts_rewrite.expect("stale tagged lines must force a rewrite");
    assert_eq!(rewritten, vec!["127.0.0.1 localhost".to_string()]);
    assert!(rewritten.iter().all(|l| !is_tagged(l)));
    assert_eq!(
        plan.trust_steps[0],
        SysStep::RemoveFile {
            path: "/usr/local/share/ca-certificates/mimikry-ca.crt".to_string(),
            on_failure: OnFailure::Abort,
        }
    );
    assert_eq!(plan.trust_steps.len(), 3);
}

#[test]
fn interrupted_session_leaves_no_tagged_line_and_no_anchor_work() {
    // A whole session at the data level: clean start, overrides added for
    // one domain, interrupt during serving, teardown.
    let original = vec!["127.0.0.1 localhost".to_string()];

    // Defensive cleanup on a clean machine touches nothing.
    let plan = cleanup_system(&original, false, &None);
    assert!(plan.hosts_rewrite.is_none());

    // Startup appends exactly the documented line.
    let mut file = original.clone();
    file.extend(mimikry::hosts::update_hosts(&vec!["example.test".to_string()]));
    assert_eq!(file[1], "127.0.0.1 example.test #mimikry-entry");

    // Interrupt during serving: the machine goes through teardown.
    let (p, a) = step(Phase::Serving, Event::InterruptReceived);
    assert_eq!(a, Action::RunTeardown);

    // Teardown drops every tagged line and removes the anchor.
    let plan = cleanup_system(&file, true, &None);
    assert_eq!(plan.hosts_rewrite.expect("tagged line present"), original);
    assert!(matches!(plan.trust_steps[0], SysStep::RemoveFile { .. }));

    let (p, _) = step(p, Event::TeardownFinished);
    assert_eq!(exit_status(p), 0);
}

#[test]
fn cleanup_on_a_clean_machine_leaves_the_mapping_file_alone() {
    let file = vec!["127.0.0.1 localhost".to_string()];
    let plan = cleanup_system(&file, false, &None);
    assert!(plan.hosts_rewrite.is_none());
    assert_eq!(plan.trust_steps.len(), 1);
}
