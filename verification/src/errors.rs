//! The error taxonomy of the tool.
//!
//! Startup failures are fatal; browser-trust and cleanup failures are
//! best-effort advisories.  Which category escalates where is decided by the
//! lifecycle machine; this type only carries the category and a diagnostic
//! text.

use vstd::prelude::*;
use vstd::string::StringExecFns;

verus! {

#[derive(Debug)]
pub enum MimikryError {
    /// Not running with elevated privileges; fatal, nothing was changed yet.
    Privilege,
    /// Certificate or key generation or signing failed; fatal.
    Crypto { detail: String },
    /// The system trust anchor could not be written or refreshed; fatal.
    TrustStore { detail: String },
    /// The resolution mapping file could not be opened or written; fatal.
    ResolutionOverride { detail: String },
    /// A listener failed; ends the serving phase and triggers teardown.
    Listener { detail: String },
    /// A failure during best-effort cleanup; reported, never escalated.
    Cleanup { detail: String },
}

pub open spec fn spec_message(e: MimikryError) -> Seq<char> {
    match e {
        MimikryError::Privilege => "Root privileges required. Please run with sudo."@,
        MimikryError::Crypto { detail } => "Certificate generation failed: "@ + detail@,
        MimikryError::TrustStore { detail } => "Failed to install trust: "@ + detail@,
        MimikryError::ResolutionOverride { detail } => "Failed to update /etc/hosts: "@
            + detail@,
        MimikryError::Listener { detail } => "Listener failed: "@ + detail@,
        MimikryError::Cleanup { detail } => "Cleanup failed: "@ + detail@,
    }
}

impl MimikryError {
    /// The diagnostic text printed for this error.
    pub fn message(&self) -> (r: String)
        ensures
            r@ == spec_message(*self),
    {
        match self {
            MimikryError::Privilege => String::from_str(
                "Root privileges required. Please run with sudo.",
            ),
            MimikryError::Crypto { detail } => {
                let mut s = String::from_str("Certificate generation failed: ");
                s.append(detail.as_str());
                s
            },
            MimikryError::TrustStore { detail } => {
                let mut s = String::from_str("Failed to install trust: ");
                s.append(detail.as_str());
                s
            },
            MimikryError::ResolutionOverride { detail } => {
                let mut s = String::from_str("Failed to update /etc/hosts: ");
                s.append(detail.as_str());
                s
            },
            MimikryError::Listener { detail } => {
                let mut s = String::from_str("Listener failed: ");
                s.append(detail.as_str());
                s
            },
            MimikryError::Cleanup { detail } => {
                let mut s = String::from_str("Cleanup failed: ");
                s.append(detail.as_str());
                s
            },
        }
    }
}

} // verus!
