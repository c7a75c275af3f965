use vstd::prelude::*;

use crate::bytes::copy_range;
use crate::cert::{
    build_chain, byte_seqs, cert_signs, chain_buildable, chain_failure, signs, verify_chain,
    CertChain, EndorsementCert,
};
use crate::error::{failure_of, ErrorKind, VerifyError};
use crate::extensions::{leaf_matches, leaf_matches_report};
use crate::nonce::{
    decode_expected_nonce, hex_encoded, match_nonce, NONCE_LEN, nonce_failure, nonce_text_bytes, NonceText,
};
use crate::report::{
    chip_id_field, decode_report, nonce_field, report_accepted, reported_tcb_field, Report,
};

verus! {

/// Whether the leaf certificate (DER) verifies the ECDSA P-384 signature that
/// closes the report (its bytes), over the first 0x2a0 bytes of sev's
/// re-encoding of the report. For a decoded `Report` that re-encoding is the
/// report's own bytes (see `report_accepted`), so the signature covers its
/// whole signed prefix.
pub uninterp spec fn report_signed_by(leaf: Seq<u8>, report: Seq<u8>) -> bool;

/// What PEM parsing finds in a text: the contents of each block in order, or
/// `None` where the text is not a sequence of PEM blocks.
pub uninterp spec fn pem_contents(text: Seq<char>) -> Option<Seq<Seq<u8>>>;

/// Relies on sev's `Verifiable` impl for a certificate and an attestation
/// report: ECDSA P-384 with SHA-384 over the first 0x2a0 bytes of the
/// report's re-encoding, with the certificate's key. The report is the one
/// parsed from the bytes that `Report` keeps beside it.
#[verifier::external_body]
fn leaf_signs_report(leaf: &EndorsementCert, report: &Report) -> (r: bool)
    ensures
        r == report_signed_by(leaf@, report@),
{
    sev::certs::snp::Verifiable::verify((&leaf.parsed, &report.firmware)).is_ok()
}

/// Relies on `pem::parse_many`: the contents of each block, in order.
#[verifier::external_body]
fn parse_pem_blocks(text: &String) -> (r: Option<Vec<Vec<u8>>>)
    ensures
        match r {
            Some(v) => pem_contents(text@) == Some(byte_seqs(v@)),
            None => pem_contents(text@) is None,
        },
{
    pem::parse_many(text.as_bytes()).ok().map(
        |blocks: Vec<pem::Pem>| blocks.into_iter().map(|b| b.into_contents()).collect(),
    )
}

/// One signature check of the pipeline.
pub enum Check<'a> {
    /// A certificate's signature under its issuer's key.
    Link { issuer: &'a EndorsementCert, subject: &'a EndorsementCert },
    /// The report's signature under the leaf's key.
    ReportSignature { leaf: &'a EndorsementCert, report: &'a Report },
}

/// Whether a signature check passes.
pub open spec fn check_passes(c: Check) -> bool {
    match c {
        Check::Link { issuer, subject } => cert_signs(issuer@, subject@),
        Check::ReportSignature { leaf, report } => report_signed_by(leaf@, report@),
    }
}

impl<'a> Check<'a> {
    /// Runs the check.
    pub fn run(&self) -> (r: bool)
        ensures
            r == check_passes(*self),
    {
        match self {
            Check::Link { issuer, subject } => signs(issuer, subject),
            Check::ReportSignature { leaf, report } => leaf_signs_report(leaf, report),
        }
    }
}

/// The first failing check of a report against a leaf certificate: the
/// signature, then the chip and TCB cross-check.
pub open spec fn report_failure(leaf: Seq<u8>, report: Seq<u8>) -> Option<ErrorKind> {
    if !report_signed_by(leaf, report) {
        Some(ErrorKind::ReportSignatureInvalid)
    } else if !leaf_matches(leaf, chip_id_field(report), reported_tcb_field(report)) {
        Some(ErrorKind::CertificateReportMismatch)
    } else {
        None
    }
}

/// Checks the report's signature with the leaf's key, then that the leaf was
/// issued for the report's chip and reported TCB version.
pub fn verify_report(chain: &CertChain, report: &Report) -> (r: Result<(), VerifyError>)
    ensures
        failure_of(r) == report_failure(chain.leaf@, report@),
{
    if !(Check::ReportSignature { leaf: &chain.leaf, report }).run() {
        return Err(VerifyError::ReportSignatureInvalid);
    }
    if !leaf_matches_report(chain.leaf.der(), report.chip_id(), report.reported_tcb()) {
        return Err(VerifyError::CertificateReportMismatch);
    }
    Ok(())
}

/// The outcome of verifying evidence given as decoded buffers: the first
/// failing stage of decoding, chain building, chain verification, report
/// verification and nonce matching, or `None` where all pass.
pub open spec fn evidence_failure(
    attestation: Seq<u8>,
    ders: Seq<Seq<u8>>,
    expected: Option<Seq<u8>>,
) -> Option<ErrorKind> {
    if !report_accepted(attestation) {
        Some(ErrorKind::MalformedReport)
    } else {
        decoded_failure(attestation, ders, expected)
    }
}

/// The stages after decoding, for a decoded report: chain building, chain
/// verification, report verification and nonce matching.
pub open spec fn decoded_failure(
    report: Seq<u8>,
    ders: Seq<Seq<u8>>,
    expected: Option<Seq<u8>>,
) -> Option<ErrorKind> {
    if !chain_buildable(ders) {
        Some(ErrorKind::InvalidCertificate)
    } else if chain_failure(ders[0], ders[1], ders[2]) is Some {
        chain_failure(ders[0], ders[1], ders[2])
    } else if report_failure(ders[0], report) is Some {
        report_failure(ders[0], report)
    } else {
        match expected {
            Some(e) => nonce_failure(e, nonce_field(report)),
            None => None,
        }
    }
}

pub open spec fn opt_view(v: Option<&Vec<u8>>) -> Option<Seq<u8>> {
    match v {
        Some(e) => Some(e@),
        None => None,
    }
}

/// Runs the stages that follow decoding on a decoded report, with the DER
/// certificates in the order [leaf, intermediate, root].
pub fn verify_decoded(
    report: &Report,
    certificates: Vec<Vec<u8>>,
    expected: Option<&Vec<u8>>,
) -> (r: Result<(), VerifyError>)
    ensures
        failure_of(r) == decoded_failure(report@, byte_seqs(certificates@), opt_view(expected)),
        r matches Err(VerifyError::NonceMismatch { found: f, expected: e }) ==> (f@
            == hex_encoded(nonce_field(report@)) && e@ == hex_encoded(opt_view(expected)->0)),
        r matches Err(VerifyError::NonceLengthMismatch { expected_len, found_len }) ==> (
        expected_len == opt_view(expected)->0.len() && found_len == NONCE_LEN),
{
    let chain = match build_chain(certificates) {
        Ok(c) => c,
        Err(e) => return Err(e),
    };
    if let Err(e) = verify_chain(&chain) {
        return Err(e);
    }
    if let Err(e) = verify_report(&chain, report) {
        return Err(e);
    }
    match expected {
        Some(e) => {
            let found = report.report_data();
            match_nonce(e, found)
        },
        None => Ok(()),
    }
}

/// Verifies attestation evidence: the report's bytes, the DER certificates in
/// the order [leaf, intermediate, root], and the nonce the caller expects, if
/// any. Stops at the first stage that fails.
pub fn verify_evidence(
    attestation: Vec<u8>,
    certificates: Vec<Vec<u8>>,
    expected: Option<&Vec<u8>>,
) -> (r: Result<(), VerifyError>)
    ensures
        failure_of(r) == evidence_failure(
            attestation@,
            byte_seqs(certificates@),
            opt_view(expected),
        ),
        r matches Err(VerifyError::NonceMismatch { found: f, expected: e }) ==> (f@
            == hex_encoded(nonce_field(attestation@)) && e@ == hex_encoded(
            opt_view(expected)->0,
        )),
        r matches Err(VerifyError::NonceLengthMismatch { expected_len, found_len }) ==> (
        expected_len == opt_view(expected)->0.len() && found_len == NONCE_LEN),
{
    let report = decode_report(attestation)?;
    verify_decoded(&report, certificates, expected)
}

/// The evidence bundle as it arrives: the report's bytes, the certificates as
/// PEM text, and the endorsement of the guest image, which is carried along
/// unverified.
pub struct JsonReport {
    pub attestation: Vec<u8>,
    pub platform_certificates: String,
    pub uvm_endorsements: Vec<u8>,
}

/// The outcome of verifying a bundle: a nonce text that does not decode
/// fails first, PEM text that does not parse fails as an invalid
/// certificate, and the rest is `evidence_failure`.
pub open spec fn bundle_failure(
    attestation: Seq<u8>,
    pem: Seq<char>,
    expected: Option<NonceText>,
) -> Option<ErrorKind> {
    let nonce = match expected {
        Some(t) => nonce_text_bytes(t),
        None => None,
    };
    if expected is Some && nonce is None {
        Some(ErrorKind::InvalidNonceEncoding)
    } else if !report_accepted(attestation) {
        Some(ErrorKind::MalformedReport)
    } else {
        match pem_contents(pem) {
            None => Some(ErrorKind::InvalidCertificate),
            Some(ders) => evidence_failure(attestation, ders, nonce),
        }
    }
}

/// Verifies a bundle against an optional expected nonce, given as hex or
/// base64 text.
pub fn verify_bundle(bundle: &JsonReport, expected: Option<&NonceText>) -> (r: Result<
    (),
    VerifyError,
>)
    ensures
        failure_of(r) == bundle_failure(
            bundle.attestation@,
            bundle.platform_certificates@,
            match expected {
                Some(t) => Some(*t),
                None => None,
            },
        ),
        r matches Err(VerifyError::NonceMismatch { found: f, expected: e }) ==> (f@
            == hex_encoded(nonce_field(bundle.attestation@)) && e@ == hex_encoded(
            nonce_text_bytes(*expected->0)->0,
        )),
        r matches Err(VerifyError::NonceLengthMismatch { expected_len, found_len }) ==> (
        expected_len == nonce_text_bytes(*expected->0)->0.len() && found_len == NONCE_LEN),
{
    let nonce = match expected {
        Some(t) => Some(decode_expected_nonce(t)?),
        None => None,
    };
    let attestation = copy_range(&bundle.attestation, 0, bundle.attestation.len());
    assert(attestation@ =~= bundle.attestation@);
    let report = decode_report(attestation)?;
    let certificates = match parse_pem_blocks(&bundle.platform_certificates) {
        Some(c) => c,
        None => return Err(VerifyError::InvalidCertificate),
    };
    match &nonce {
        Some(n) => verify_decoded(&report, certificates, Some(n)),
        None => verify_decoded(&report, certificates, None),
    }
}

/// The nonce check of a bundle on its own: the expected nonce text must
/// decode, the report must decode, and its nonce field must be the expected
/// bytes.
pub open spec fn bundle_nonce_failure(attestation: Seq<u8>, expected: NonceText) -> Option<
    ErrorKind,
> {
    match nonce_text_bytes(expected) {
        None => Some(ErrorKind::InvalidNonceEncoding),
        Some(e) => if !report_accepted(attestation) {
            Some(ErrorKind::MalformedReport)
        } else {
            nonce_failure(e, nonce_field(attestation))
        },
    }
}

/// Compares a bundle's report nonce with the expected one, apart from any
/// signature check, so that the comparison can be reported on its own. Its
/// success says nothing of the report's authenticity: that takes
/// `verify_bundle`.
pub fn check_bundle_nonce(bundle: &JsonReport, expected: &NonceText) -> (r: Result<
    (),
    VerifyError,
>)
    ensures
        failure_of(r) == bundle_nonce_failure(bundle.attestation@, *expected),
        r matches Err(VerifyError::NonceMismatch { found: f, expected: e }) ==> (f@
            == hex_encoded(nonce_field(bundle.attestation@)) && e@ == hex_encoded(
            nonce_text_bytes(*expected)->0,
        )),
        r matches Err(VerifyError::NonceLengthMismatch { expected_len, found_len }) ==> (
        expected_len == nonce_text_bytes(*expected)->0.len() && found_len == NONCE_LEN),
{
    let nonce = decode_expected_nonce(expected)?;
    let attestation = copy_range(&bundle.attestation, 0, bundle.attestation.len());
    assert(attestation@ =~= bundle.attestation@);
    let report = decode_report(attestation)?;
    let found = report.report_data();
    match_nonce(&nonce, found)
}

} // verus!
