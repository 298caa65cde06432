use mimikry::trust::{install_trust, nss_db_url, remove_trust, OnFailure, SysStep};

#[test]
fn nss_db_url_points_below_the_home_directory() {
    assert_eq!(nss_db_url("/home/alice"), "sql:/home/alice/.pki/nssdb");
}

#[test]
fn install_without_home_writes_anchor_and_refreshes() {
    let steps = install_trust("PEM DATA", &None);
    assert_eq!(steps.len(), 2);
    assert_eq!(
        steps[0],
        SysStep::WriteFile {
            path: "/usr/local/share/ca-certificates/mimikry-ca.crt".to_string(),
            contents: "PEM DATA".to_string(),
            on_failure: OnFailure::Abort,
        }
    );
    assert_eq!(
        steps[1],
        SysStep::RunCmd {
            program: "update-ca-certificates".to_string(),
            args: vec![],
            check_exit: true,
            on_failure: OnFailure::Abort,
        }
    );
}

#[test]
fn install_with_home_adds_best_effort_browser_import() {
    let steps = install_trust("PEM DATA", &Some("/home/alice".to_string()));
    assert_eq!(steps.len(), 5);
    assert_eq!(
        steps[2],
        SysStep::WriteFile {
            path: "/tmp/mimikry-ca.crt".to_string(),
            contents: "PEM DATA".to_string(),
            on_failure: OnFailure::Warn,
        }
    );
    assert_eq!(
        steps[3],
        SysStep::RunCmd {
            program: "certutil".to_string(),
            args: vec![
                "-A".to_string(),
                "-n".to_string(),
                "Mimikry CA".to_string(),
                "-t".to_string(),
                "C,,".to_string(),
                "-i".to_string(),
                "/tmp/mimikry-ca.crt".to_string(),
                "-d".to_string(),
                "sql:/home/alice/.pki/nssdb".to_string(),
            ],
            check_exit: true,
            on_failure: OnFailure::Warn,
        }
    );
    assert_eq!(
        steps[4],
        SysStep::RemoveFile {
            path: "/tmp/mimikry-ca.crt".to_string(),
            on_failure: OnFailure::Ignore,
        }
    );
}

#[test]
fn remove_with_anchor_deletes_it_then_rebuilds_from_scratch() {
    let steps = remove_trust(true, &None);
    assert_eq!(steps.len(), 2);
    assert_eq!(
        steps[0],
        SysStep::RemoveFile {
            path: "/usr/local/share/ca-certificates/mimikry-ca.crt".to_string(),
            on_failure: OnFailure::Abort,
        }
    );
    assert_eq!(
        steps[1],
        SysStep::RunCmd {
            program: "update-ca-certificates".to_string(),
            args: vec!["--fresh".to_string()],
            // A failed rebuild, non-zero exit included, propagates as an
            // error: no stale reference to the removed certificate may
            // survive unnoticed.
            check_exit: true,
            on_failure: OnFailure::Abort,
        }
    );
}

#[test]
fn remove_without_install_is_safe() {
    // Never installed: nothing to delete, the rebuild still runs, and the
    // browser-database deletion's outcome is ignored entirely.
    let steps = remove_trust(false, &Some("/home/alice".to_string()));
    assert_eq!(steps.len(), 2);
    assert!(steps.iter().all(|s| !matches!(s, SysStep::RemoveFile { .. })));
    assert_eq!(
        steps[1],
        SysStep::RunCmd {
            program: "certutil".to_string(),
            args: vec![
                "-D".to_string(),
                "-n".to_string(),
                "Mimikry CA".to_string(),
                "-d".to_string(),
                "sql:/home/alice/.pki/nssdb".to_string(),
            ],
            check_exit: false,
            on_failure: OnFailure::Ignore,
        }
    );
}

#[test]
fn remove_is_idempotent_in_shape() {
    // Called twice in a row on an already clean system the plan is the same,
    // deleting nothing: removal re-derives locations from fixed names alone.
    let first = remove_trust(false, &None);
    let second = remove_trust(false, &None);
    assert_eq!(first, second);
    assert_eq!(first.len(), 1);
}
