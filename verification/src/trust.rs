//! Trust-anchor installation and removal, computed as explicit plans.
//!
//! Writing into the system certificate directory, refreshing the trust
//! bundle and importing into a user's browser database are process and file
//! operations the surrounding binary must perform.  This module computes the
//! exact sequence of steps — paths, file contents, programs, arguments — and
//! how a failure of each is to be treated, so that the security-relevant
//! decisions are all verified.  Removal re-derives every location from fixed
//! names alone, never from memory of what an earlier run did.

use vstd::prelude::*;
use vstd::string::StringExecFns;

verus! {

/// How the executor treats a failing step.
#[derive(Clone, Copy, Debug, PartialEq, Eq, Structural)]
pub enum OnFailure {
    /// The run cannot continue: stop and report.
    Abort,
    /// Log a warning and carry on.
    Warn,
    /// Ignore the outcome entirely.
    Ignore,
}

/// One step of a plan over external system state.
#[derive(Clone, Debug, PartialEq, Eq)]
pub enum SysStep {
    /// Write `contents` to the file at `path`, creating or truncating it.
    WriteFile { path: String, contents: String, on_failure: OnFailure },
    /// Delete the file at `path`.
    RemoveFile { path: String, on_failure: OnFailure },
    /// Run `program` with `args`; when `check_exit` holds, a non-zero exit
    /// status counts as a failure of the step.
    RunCmd { program: String, args: Vec<String>, check_exit: bool, on_failure: OnFailure },
}

/// The fixed file the authority certificate is written to inside the
/// system-wide trust-anchor directory.
pub open spec fn spec_anchor_path() -> Seq<char> {
    "/usr/local/share/ca-certificates/mimikry-ca.crt"@
}

/// The temporary copy handed to the browser-database import tool.
pub open spec fn spec_temp_cert_path() -> Seq<char> {
    "/tmp/mimikry-ca.crt"@
}

/// The fixed human-readable label under which the authority is imported
/// into, and later deleted from, a browser database.
pub open spec fn spec_trust_label() -> Seq<char> {
    "Mimikry CA"@
}

/// The browser/tooling certificate database below a user's home directory.
pub open spec fn spec_nss_db_url(home: Seq<char>) -> Seq<char> {
    "sql:"@ + home + "/.pki/nssdb"@
}

pub open spec fn step_is_write(
    s: SysStep,
    path: Seq<char>,
    contents: Seq<char>,
    f: OnFailure,
) -> bool {
    &&& s matches SysStep::WriteFile { path: p, contents: c, on_failure: o }
    &&& p@ == path
    &&& c@ == contents
    &&& o == f
}

pub open spec fn step_is_remove(s: SysStep, path: Seq<char>, f: OnFailure) -> bool {
    &&& s matches SysStep::RemoveFile { path: p, on_failure: o }
    &&& p@ == path
    &&& o == f
}

pub open spec fn step_is_cmd(
    s: SysStep,
    program: Seq<char>,
    args: Seq<Seq<char>>,
    check_exit: bool,
    f: OnFailure,
) -> bool {
    &&& s matches SysStep::RunCmd { program: p, args: a, check_exit: x, on_failure: o }
    &&& p@ == program
    &&& a.deep_view() == args
    &&& x == check_exit
    &&& o == f
}

/// The system-store half of an installation: write the anchor file, then
/// refresh the trust bundle, both fatal on failure.
pub open spec fn spec_install_system_steps(r: Seq<SysStep>, ca_pem: Seq<char>) -> bool {
    &&& step_is_write(r[0], spec_anchor_path(), ca_pem, OnFailure::Abort)
    &&& step_is_cmd(
        r[1],
        "update-ca-certificates"@,
        Seq::<Seq<char>>::empty(),
        true,
        OnFailure::Abort,
    )
}

/// The best-effort browser half: write a temporary certificate copy, import
/// it under the fixed label into the user's database, delete the copy.  The
/// import's failure is only warned about, and the temporary file is removed
/// whatever the import did.
pub open spec fn spec_install_browser_steps(
    r: Seq<SysStep>,
    ca_pem: Seq<char>,
    home: Seq<char>,
) -> bool {
    &&& step_is_write(r[0], spec_temp_cert_path(), ca_pem, OnFailure::Warn)
    &&& step_is_cmd(
        r[1],
        "certutil"@,
        seq![
            "-A"@,
            "-n"@,
            spec_trust_label(),
            "-t"@,
            "C,,"@,
            "-i"@,
            spec_temp_cert_path(),
            "-d"@,
            spec_nss_db_url(home),
        ],
        true,
        OnFailure::Warn,
    )
    &&& step_is_remove(r[2], spec_temp_cert_path(), OnFailure::Ignore)
}

/// The removal plan: delete the anchor file when it is present (re-derived
/// from its fixed name), rebuild the trust bundle from scratch — a failure
/// of the rebuild, a non-zero exit included, propagates as an error — and,
/// when a real user is known, delete the browser-database entry by its fixed
/// label, ignoring that command's outcome entirely.
pub open spec fn spec_remove_steps(
    r: Seq<SysStep>,
    anchor_exists: bool,
    home: Option<Seq<char>>,
) -> bool {
    let k: int = if anchor_exists {
        1
    } else {
        0
    };
    &&& r.len() == k + 1 + (if home is Some {
        1int
    } else {
        0
    })
    &&& (anchor_exists ==> step_is_remove(r[0], spec_anchor_path(), OnFailure::Abort))
    &&& step_is_cmd(r[k], "update-ca-certificates"@, seq!["--fresh"@], true, OnFailure::Abort)
    &&& (home matches Some(h) ==> step_is_cmd(
        r[k + 1],
        "certutil"@,
        seq!["-D"@, "-n"@, spec_trust_label(), "-d"@, spec_nss_db_url(h)],
        false,
        OnFailure::Ignore,
    ))
}

/// The anchor file's fixed location, also used to test for stale residue.
pub fn anchor_path() -> (r: String)
    ensures
        r@ == spec_anchor_path(),
{
    String::from_str("/usr/local/share/ca-certificates/mimikry-ca.crt")
}

fn temp_cert_path() -> (r: String)
    ensures
        r@ == spec_temp_cert_path(),
{
    String::from_str("/tmp/mimikry-ca.crt")
}

/// The database URL certutil is pointed at for a given home directory.
pub fn nss_db_url(home: &str) -> (r: String)
    ensures
        r@ == spec_nss_db_url(home@),
{
    let mut s = String::from_str("sql:");
    s.append(home);
    s.append("/.pki/nssdb");
    proof {
        assert(s@ =~= spec_nss_db_url(home@));
    }
    s
}

/// The plan that installs the authority certificate: the system trust store
/// first (fatal), then, when a real user's home is known, the best-effort
/// browser-database import.
pub fn install_trust(ca_pem: &str, user_home: &Option<String>) -> (r: Vec<SysStep>)
    ensures
        user_home is None ==> r@.len() == 2,
        user_home is Some ==> r@.len() == 5,
        spec_install_system_steps(r@, ca_pem@),
        user_home matches Some(h) ==> spec_install_browser_steps(
            r@.subrange(2, r@.len() as int),
            ca_pem@,
            h@,
        ),
{
    let mut steps: Vec<SysStep> = Vec::new();
    steps.push(
        SysStep::WriteFile {
            path: anchor_path(),
            contents: ca_pem.to_owned(),
            on_failure: OnFailure::Abort,
        },
    );
    steps.push(
        SysStep::RunCmd {
            program: String::from_str("update-ca-certificates"),
            args: Vec::new(),
            check_exit: true,
            on_failure: OnFailure::Abort,
        },
    );
    if let Some(home) = user_home {
        steps.push(
            SysStep::WriteFile {
                path: temp_cert_path(),
                contents: ca_pem.to_owned(),
                on_failure: OnFailure::Warn,
            },
        );
        let mut args: Vec<String> = Vec::new();
        args.push(String::from_str("-A"));
        args.push(String::from_str("-n"));
        args.push(String::from_str("Mimikry CA"));
        args.push(String::from_str("-t"));
        args.push(String::from_str("C,,"));
        args.push(String::from_str("-i"));
        args.push(temp_cert_path());
        args.push(String::from_str("-d"));
        args.push(nss_db_url(home.as_str()));
        proof {
            assert(args.deep_view() =~= seq![
                "-A"@,
                "-n"@,
                spec_trust_label(),
                "-t"@,
                "C,,"@,
                "-i"@,
                spec_temp_cert_path(),
                "-d"@,
                spec_nss_db_url(home@),
            ]);
        }
        steps.push(
            SysStep::RunCmd {
                program: String::from_str("certutil"),
                args,
                check_exit: true,
                on_failure: OnFailure::Warn,
            },
        );
        steps.push(
            SysStep::RemoveFile { path: temp_cert_path(), on_failure: OnFailure::Ignore },
        );
        proof {
            assert(Seq::<Seq<char>>::empty() =~= steps@[1]->RunCmd_args.deep_view());
        }
    } else {
        proof {
            assert(Seq::<Seq<char>>::empty() =~= steps@[1]->RunCmd_args.deep_view());
        }
    }
    steps
}

/// The plan that removes the trust anchor.  It is derived from fixed names
/// alone, so it needs no memory of any earlier installation; with
/// `anchor_exists` false nothing is deleted and only the rebuild (and the
/// ignored browser-database deletion) remains.
pub fn remove_trust(anchor_exists: bool, user_home: &Option<String>) -> (r: Vec<SysStep>)
    ensures
        spec_remove_steps(
            r@,
            anchor_exists,
            match user_home {
                Some(h) => Some(h@),
                None => None,
            },
        ),
{
    let mut steps: Vec<SysStep> = Vec::new();
    if anchor_exists {
        steps.push(
            SysStep::RemoveFile { path: anchor_path(), on_failure: OnFailure::Abort },
        );
    }
    let mut fresh_args: Vec<String> = Vec::new();
    fresh_args.push(String::from_str("--fresh"));
    proof {
        assert(fresh_args.deep_view() =~= seq!["--fresh"@]);
    }
    steps.push(
        SysStep::RunCmd {
            program: String::from_str("update-ca-certificates"),
            args: fresh_args,
            check_exit: true,
            on_failure: OnFailure::Abort,
        },
    );
    if let Some(home) = user_home {
        let mut args: Vec<String> = Vec::new();
        args.push(String::from_str("-D"));
        args.push(String::from_str("-n"));
        args.push(String::from_str("Mimikry CA"));
        args.push(String::from_str("-d"));
        args.push(nss_db_url(home.as_str()));
        proof {
            assert(args.deep_view() =~= seq![
                "-D"@,
                "-n"@,
                spec_trust_label(),
                "-d"@,
                spec_nss_db_url(home@),
            ]);
        }
        steps.push(
            SysStep::RunCmd {
                program: String::from_str("certutil"),
                args,
                check_exit: false,
                on_failure: OnFailure::Ignore,
            },
        );
    }
    steps
}

/// Removal without a prior installation is harmless: the plan deletes no
/// file, and its only step whose outcome is even looked at is the bundle
/// rebuild, which does not depend on anything an installation would have
/// created.  The browser-database deletion's outcome is ignored entirely.
pub proof fn lemma_remove_without_install(r: Seq<SysStep>, home: Option<Seq<char>>)
    requires
        spec_remove_steps(r, false, home),
    ensures
        forall|i: int| 0 <= i < r.len() ==> !(#[trigger] r[i] is RemoveFile),
        forall|i: int|
            0 <= i < r.len() && r[i] is RunCmd && r[i]->RunCmd_program@ == "certutil"@
                ==> r[i]->RunCmd_on_failure == OnFailure::Ignore,
{
    assert forall|i: int| 0 <= i < r.len() implies !(#[trigger] r[i] is RemoveFile) by {
        if r.len() == 1 {
            assert(r[0] is RunCmd);
        } else {
            assert(r[0] is RunCmd);
            assert(home is Some);
            assert(r[1] is RunCmd);
        }
    }
    assert forall|i: int|
        0 <= i < r.len() && r[i] is RunCmd && r[i]->RunCmd_program@ == "certutil"@ implies r[i]
        ->RunCmd_on_failure == OnFailure::Ignore by {
        reveal_strlit("update-ca-certificates");
        reveal_strlit("certutil");
        if i == 0 {
            assert(r[0]->RunCmd_program@ == "update-ca-certificates"@);
            assert("update-ca-certificates"@.len() != "certutil"@.len());
            assert(false);
        } else {
            assert(home is Some);
            let h = home->Some_0;
            assert(step_is_cmd(
                r[1],
                "certutil"@,
                seq!["-D"@, "-n"@, spec_trust_label(), "-d"@, spec_nss_db_url(h)],
                false,
                OnFailure::Ignore,
            ));
        }
    }
}

} // verus!
