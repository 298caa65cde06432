//! Certificate-chain generation.
//!
//! One run mints a self-signed root authority, CA-marked with path-length
//! constraint 0 so it can sign leaves but no further authorities, and a leaf
//! certificate for the requested domain set, signed by that authority.  The
//! cryptography is rcgen's; this module fixes what is requested of it and
//! states exactly what the produced chain contains.  Key generation is
//! random, so no two runs produce the same bytes; the contracts therefore
//! speak of properties of the returned text, never of its value.

use vstd::prelude::*;
use vstd::utf8::is_ascii_chars;
use crate::errors::MimikryError;
use rcgen::{BasicConstraints, Certificate, CertificateParams, DnType, IsCa, RcgenError, SanType};

verus! {

/// rcgen's error type, carried opaquely until it is turned into a crypto
/// error of this library.
#[verifier::external_type_specification]
#[verifier::external_body]
pub struct ExRcgenError(RcgenError);

/// The DNS subject-alternative-names carried by a PEM-encoded certificate,
/// in the order they are encoded.
pub uninterp spec fn pem_dns_names(pem: Seq<char>) -> Seq<Seq<char>>;

/// Whether certificate-chain validation of the leaf against the authority
/// certificate succeeds.
pub uninterp spec fn chain_validates(leaf_pem: Seq<char>, authority_pem: Seq<char>) -> bool;

/// Whether a PEM-encoded certificate asserts certificate-signing capability
/// constrained to path length 0.
pub uninterp spec fn is_constrained_authority_pem(pem: Seq<char>) -> bool;

/// Whether a PEM-encoded certificate is self-signed: its issuer is its own
/// subject and its signature verifies under its own public key.
pub uninterp spec fn is_self_signed_pem(pem: Seq<char>) -> bool;

/// Whether a PEM-encoded private key is the counterpart of the public key
/// inside a PEM-encoded certificate.
pub uninterp spec fn key_matches_certificate(key_pem: Seq<char>, cert_pem: Seq<char>) -> bool;

/// The credentials of one run: the authority pair and the leaf pair, all
/// PEM-encoded, held in memory only.
pub struct CertBundle {
    pub ca_cert_pem: String,
    pub ca_key_pem: String,
    pub leaf_cert_pem: String,
    pub leaf_key_pem: String,
}

/// Relies on rcgen 0.11 (`CertificateParams`, `Certificate::from_params`,
/// `serialize_pem`, `serialize_pem_with_signer`,
/// `serialize_private_key_pem`): the authority parameters carry
/// `IsCa::Ca(BasicConstraints::Constrained(0))`, so its self-signed
/// certificate asserts CA capability with path length 0; the leaf's
/// subject-alternative-name list is set to exactly one DNS entry per given
/// name, in order, and rcgen encodes that list as given; the leaf is signed
/// with the authority's key, so it validates against the authority
/// certificate; each serialized private key is the pair of the public key in
/// its certificate.  The DNS names are written as IA5String, whose writer
/// asserts ASCII text, hence the precondition.  Fresh random keys are drawn
/// inside, so nothing relates the outputs of two calls.
#[verifier::external_body]
fn rcgen_make_chain(common_name: &str, org: &str, domains: &Vec<String>) -> (r: Result<
    CertBundle,
    RcgenError,
>)
    requires
        forall|i: int| 0 <= i < domains@.len() ==> #[trigger] is_ascii_chars(domains@[i]@),
    ensures
        r matches Ok(b) ==> {
            &&& pem_dns_names(b.leaf_cert_pem@) == domains.deep_view()
            &&& chain_validates(b.leaf_cert_pem@, b.ca_cert_pem@)
            &&& is_constrained_authority_pem(b.ca_cert_pem@)
            &&& is_self_signed_pem(b.ca_cert_pem@)
            &&& key_matches_certificate(b.ca_key_pem@, b.ca_cert_pem@)
            &&& key_matches_certificate(b.leaf_key_pem@, b.leaf_cert_pem@)
        },
{
    let mut cp = CertificateParams::new(vec![common_name.to_string()]);
    cp.distinguished_name.push(DnType::OrganizationName, org.to_string());
    cp.is_ca = IsCa::Ca(BasicConstraints::Constrained(0));
    let ca = Certificate::from_params(cp)?;
    let ca_cert_pem = ca.serialize_pem()?;
    let mut lp = CertificateParams::new(domains.clone());
    lp.subject_alt_names = domains.iter().map(|d| SanType::DnsName(d.clone())).collect();
    let leaf = Certificate::from_params(lp)?;
    let leaf_cert_pem = leaf.serialize_pem_with_signer(&ca)?;
    let leaf_key_pem = leaf.serialize_private_key_pem();
    Ok(CertBundle { ca_cert_pem, ca_key_pem: ca.serialize_private_key_pem(), leaf_cert_pem, leaf_key_pem })
}

/// Generate the authority and leaf credentials for a non-empty domain set of
/// ASCII names (DNS names are ASCII by construction; a non-ASCII name cannot
/// be encoded).  On success the leaf's alternate-name list equals the input
/// domains exactly — same names, same order, duplicates preserved — the leaf
/// validates against the self-signed, CA-constrained authority certificate,
/// and each returned private key matches its certificate.  Any cryptographic
/// or encoding failure is fatal and surfaces as a crypto error.
pub fn generate_certs(domains: &Vec<String>) -> (r: Result<CertBundle, MimikryError>)
    requires
        domains@.len() > 0,
        forall|i: int| 0 <= i < domains@.len() ==> #[trigger] is_ascii_chars(domains@[i]@),
    ensures
        r matches Ok(b) ==> {
            &&& pem_dns_names(b.leaf_cert_pem@) == domains.deep_view()
            &&& chain_validates(b.leaf_cert_pem@, b.ca_cert_pem@)
            &&& is_constrained_authority_pem(b.ca_cert_pem@)
            &&& is_self_signed_pem(b.ca_cert_pem@)
            &&& key_matches_certificate(b.ca_key_pem@, b.ca_cert_pem@)
            &&& key_matches_certificate(b.leaf_key_pem@, b.leaf_cert_pem@)
        },
        r matches Err(e) ==> e is Crypto,
{
    match rcgen_make_chain("Mimikry Root CA", "Mimikry Internal", domains) {
        Ok(b) => Ok(b),
        Err(e) => Err(MimikryError::Crypto { detail: e.to_string() }),
    }
}

} // verus!
