use vstd::prelude::*;

use crate::attest::{bundle_failure, evidence_failure, report_failure, report_signed_by};
use crate::cert::{cert_signs, chain_buildable, chain_failure, chain_linked};
use crate::der::subject_name;
use crate::error::{ChainLink, ErrorKind};
use crate::extensions::leaf_matches;
use crate::nonce::{base64_decoded, hex_decoded, NonceText};
use crate::report::{chip_id_field, nonce_field, report_accepted, reported_tcb_field};

verus! {

/// Evidence whose report decodes, whose three certificates parse and sign
/// one another from the root down, whose report is signed by the leaf and
/// matches its chip and TCB, and whose nonce is the expected one (if one is
/// expected) verifies.
pub proof fn lemma_valid_evidence_succeeds(
    attestation: Seq<u8>,
    ders: Seq<Seq<u8>>,
    expected: Option<Seq<u8>>,
)
    requires
        report_accepted(attestation),
        chain_buildable(ders),
        cert_signs(ders[2], ders[2]),
        cert_signs(ders[2], ders[1]),
        cert_signs(ders[1], ders[0]),
        report_signed_by(ders[0], attestation),
        leaf_matches(ders[0], chip_id_field(attestation), reported_tcb_field(attestation)),
        expected matches Some(e) ==> e == nonce_field(attestation),
    ensures
        evidence_failure(attestation, ders, expected) is None,
{
}

/// Evidence whose report does not verify under the leaf's key never
/// verifies: it fails at decoding, at the chain, or with
/// `ReportSignatureInvalid`.
pub proof fn lemma_unsigned_report_fails(
    attestation: Seq<u8>,
    ders: Seq<Seq<u8>>,
    expected: Option<Seq<u8>>,
)
    requires
        ders.len() == 3,
        !report_signed_by(ders[0], attestation),
    ensures
        evidence_failure(attestation, ders, expected) is Some,
        report_accepted(attestation) && chain_buildable(ders) && chain_failure(
            ders[0],
            ders[1],
            ders[2],
        ) is None ==> evidence_failure(attestation, ders, expected) == Some(
            ErrorKind::ReportSignatureInvalid,
        ),
{
    assert(report_failure(ders[0], attestation) == Some(ErrorKind::ReportSignatureInvalid));
}

/// Evidence with any of the three chain signatures failing never verifies;
/// once the report decodes and the certificates parse, the failure is
/// `UntrustedRoot` for the root's own signature and `ChainVerificationFailed`
/// for the link below it.
pub proof fn lemma_broken_chain_fails(
    attestation: Seq<u8>,
    ders: Seq<Seq<u8>>,
    expected: Option<Seq<u8>>,
)
    requires
        ders.len() == 3,
        !cert_signs(ders[2], ders[2]) || !cert_signs(ders[2], ders[1]) || !cert_signs(
            ders[1],
            ders[0],
        ),
    ensures
        evidence_failure(attestation, ders, expected) is Some,
        report_accepted(attestation) && chain_buildable(ders) ==> {
            let f = evidence_failure(attestation, ders, expected);
            ||| !cert_signs(ders[2], ders[2]) && f == Some(ErrorKind::UntrustedRoot)
            ||| f == Some(ErrorKind::ChainVerificationFailed(ChainLink::IntermediateOverRoot))
            ||| f == Some(ErrorKind::ChainVerificationFailed(ChainLink::LeafOverIntermediate))
        },
{
}

/// Certificates supplied as [root, intermediate, leaf], whose names link
/// in the order [leaf, intermediate, root] and whose root and intermediate
/// have different subjects, never verify: the chain is refused as invalid
/// unless the report has already failed to decode.
pub proof fn lemma_reversed_chain_fails(
    attestation: Seq<u8>,
    leaf: Seq<u8>,
    intermediate: Seq<u8>,
    root: Seq<u8>,
    expected: Option<Seq<u8>>,
)
    requires
        chain_linked(leaf, intermediate, root),
        subject_name(root) != subject_name(intermediate),
    ensures
        evidence_failure(attestation, seq![root, intermediate, leaf], expected) is Some,
        report_accepted(attestation) ==> evidence_failure(
            attestation,
            seq![root, intermediate, leaf],
            expected,
        ) == Some(ErrorKind::InvalidCertificate),
{
    let ders = seq![root, intermediate, leaf];
    assert(ders[0] == root && ders[1] == intermediate && ders[2] == leaf);
    assert(!chain_linked(root, intermediate, leaf));
}

/// A hex text and a base64 text that stand for the same bytes give the same
/// outcome on every bundle.
pub proof fn lemma_nonce_form_independent(
    attestation: Seq<u8>,
    pem: Seq<char>,
    hex: String,
    base64: String,
)
    requires
        hex_decoded(hex@) is Some,
        hex_decoded(hex@) == base64_decoded(base64@),
    ensures
        bundle_failure(attestation, pem, Some(NonceText::Hex(hex))) == bundle_failure(
            attestation,
            pem,
            Some(NonceText::Base64(base64)),
        ),
{
}

/// Verifying the same bundle twice with the same expectation gives the same
/// outcome: the outcome is a function of the inputs alone.
pub proof fn lemma_verification_deterministic(
    attestation: Seq<u8>,
    pem: Seq<char>,
    expected: Option<NonceText>,
    attestation2: Seq<u8>,
    pem2: Seq<char>,
    expected2: Option<NonceText>,
)
    requires
        attestation == attestation2,
        pem == pem2,
        expected == expected2,
    ensures
        bundle_failure(attestation, pem, expected) == bundle_failure(
            attestation2,
            pem2,
            expected2,
        ),
{
}

} // verus!
