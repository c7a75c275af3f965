use vstd::prelude::*;

use crate::attest::Check;
use crate::bytes::bytes_equal;
use crate::der::{issuer_and_subject, read_issuer_and_subject};
use crate::error::{failure_of, ChainLink, ErrorKind, VerifyError};

verus! {

#[verifier::external_type_specification]
#[verifier::external_body]
pub struct ExCertificate(sev::certs::snp::Certificate);

/// Whether sev parses these bytes as a DER-encoded X.509 certificate.
pub uninterp spec fn der_parses(der: Seq<u8>) -> bool;

/// Whether the key of the certificate `issuer` verifies the signature over
/// the body of the certificate `subject`, both given as DER.
pub uninterp spec fn cert_signs(issuer: Seq<u8>, subject: Seq<u8>) -> bool;

/// Relies on `Certificate::from_der` of `sev`: whether it succeeds depends on
/// the bytes alone.
#[verifier::external_body]
fn parse_der(der: &Vec<u8>) -> (r: Option<sev::certs::snp::Certificate>)
    ensures
        r is Some <==> der_parses(der@),
{
    sev::certs::snp::Certificate::from_der(der.as_slice()).ok()
}

/// An endorsement certificate: the DER bytes, and what sev parsed from
/// exactly those bytes. Its view is the DER.
pub struct EndorsementCert {
    der: Vec<u8>,
    pub(crate) parsed: sev::certs::snp::Certificate,
}

impl View for EndorsementCert {
    type V = Seq<u8>;

    closed spec fn view(&self) -> Seq<u8> {
        self.der@
    }
}

impl EndorsementCert {
    #[verifier::type_invariant]
    closed spec fn inv(self) -> bool {
        der_parses(self.der@)
    }

    /// Parses one DER certificate; `InvalidCertificate` where it does not parse.
    pub fn from_der(der: Vec<u8>) -> (r: Result<EndorsementCert, VerifyError>)
        ensures
            r is Ok <==> der_parses(der@),
            match r {
                Ok(c) => c@ == der@,
                Err(e) => e == VerifyError::InvalidCertificate,
            },
    {
        match parse_der(&der) {
            Some(parsed) => Ok(EndorsementCert { der, parsed }),
            None => Err(VerifyError::InvalidCertificate),
        }
    }

    /// The certificate's subject public key.
    pub fn public_key(&self) -> (r: Vec<u8>)
        ensures
            r@ == subject_public_key(self@),
    {
        public_key_bits(self)
    }

    /// The certificate's DER bytes, which always parse.
    pub fn der(&self) -> (r: &Vec<u8>)
        ensures
            r@ == self@,
            der_parses(self@),
    {
        proof {
            use_type_invariant(self);
        }
        &self.der
    }
}

/// The subject public key of a DER certificate: the bits of its
/// subject-public-key-info element (a SEC1 point for an EC key).
pub uninterp spec fn subject_public_key(der: Seq<u8>) -> Seq<u8>;

/// Relies on `Certificate::public_key_sec1` of `sev`: the raw bits of the
/// certificate's subject public key. The certificate is the one parsed from
/// the DER that `EndorsementCert` keeps beside it.
#[verifier::external_body]
fn public_key_bits(c: &EndorsementCert) -> (r: Vec<u8>)
    ensures
        r@ == subject_public_key(c@),
{
    c.parsed.public_key_sec1().to_vec()
}

/// Relies on sev's `Verifiable` impl for a pair of certificates: it checks
/// the subject's signature with the issuer's public key (RSA-PSS, SHA-384).
/// Each certificate here is the one parsed from the DER that it keeps.
#[verifier::external_body]
pub(crate) fn signs(issuer: &EndorsementCert, subject: &EndorsementCert) -> (r: bool)
    ensures
        r == cert_signs(issuer@, subject@),
{
    sev::certs::snp::Verifiable::verify((&issuer.parsed, &subject.parsed)).is_ok()
}

/// The three endorsement certificates: leaf (VCEK), intermediate (ASK) and
/// root (ARK).
pub struct CertChain {
    pub leaf: EndorsementCert,
    pub intermediate: EndorsementCert,
    pub root: EndorsementCert,
}

/// Whether the supplied DER buffers build a chain: exactly three, each one
/// parsing, with names that link in the order [leaf, intermediate, root].
pub open spec fn chain_buildable(ders: Seq<Seq<u8>>) -> bool {
    &&& ders.len() == 3
    &&& der_parses(ders[0]) && der_parses(ders[1]) && der_parses(ders[2])
    &&& chain_linked(ders[0], ders[1], ders[2])
}

/// Whether the names link the three certificates: the leaf's issuer is the
/// intermediate's subject, the intermediate's issuer is the root's subject,
/// and the root names itself as issuer.
pub open spec fn chain_linked(leaf: Seq<u8>, intermediate: Seq<u8>, root: Seq<u8>) -> bool {
    match (issuer_and_subject(leaf), issuer_and_subject(intermediate), issuer_and_subject(root)) {
        (Some((li, _)), Some((ii, is)), Some((ri, rs))) => li == is && ii == rs && ri == rs,
        _ => false,
    }
}

/// Checks `chain_linked` on the certificates' DER.
pub fn names_link(leaf: &Vec<u8>, intermediate: &Vec<u8>, root: &Vec<u8>) -> (r: bool)
    ensures
        r == chain_linked(leaf@, intermediate@, root@),
{
    let (li, _) = match read_issuer_and_subject(leaf) {
        Some(n) => n,
        None => return false,
    };
    let (ii, is) = match read_issuer_and_subject(intermediate) {
        Some(n) => n,
        None => return false,
    };
    let (ri, rs) = match read_issuer_and_subject(root) {
        Some(n) => n,
        None => return false,
    };
    bytes_equal(&li, &is) && bytes_equal(&ii, &rs) && bytes_equal(&ri, &rs)
}

/// The bytes of each buffer.
pub open spec fn byte_seqs(v: Seq<Vec<u8>>) -> Seq<Seq<u8>> {
    v.map_values(|d: Vec<u8>| d@)
}

/// Builds a chain from DER buffers in the order [leaf, intermediate, root]:
/// each must parse, and their names must link in that order. No signature
/// is checked here.
pub fn build_chain(ders: Vec<Vec<u8>>) -> (r: Result<CertChain, VerifyError>)
    ensures
        r is Ok <==> chain_buildable(byte_seqs(ders@)),
        match r {
            Ok(c) => c.leaf@ == ders@[0]@ && c.intermediate@ == ders@[1]@ && c.root@
                == ders@[2]@,
            Err(e) => e == VerifyError::InvalidCertificate,
        },
{
    if ders.len() != 3 {
        return Err(VerifyError::InvalidCertificate);
    }
    let ghost d = ders@;
    let mut ders = ders;
    let root_der = ders.pop().unwrap();
    let intermediate_der = ders.pop().unwrap();
    let leaf_der = ders.pop().unwrap();
    assert(root_der == d[2] && intermediate_der == d[1] && leaf_der == d[0]);
    let leaf = EndorsementCert::from_der(leaf_der)?;
    let intermediate = EndorsementCert::from_der(intermediate_der)?;
    let root = EndorsementCert::from_der(root_der)?;
    if !names_link(leaf.der(), intermediate.der(), root.der()) {
        return Err(VerifyError::InvalidCertificate);
    }
    Ok(CertChain { leaf, intermediate, root })
}

/// The first failing check of a chain given as DER: the root's signature over
/// itself, then the root over the intermediate, then the intermediate over
/// the leaf.
pub open spec fn chain_failure(leaf: Seq<u8>, intermediate: Seq<u8>, root: Seq<u8>) -> Option<
    ErrorKind,
> {
    if !cert_signs(root, root) {
        Some(ErrorKind::UntrustedRoot)
    } else if !cert_signs(root, intermediate) {
        Some(ErrorKind::ChainVerificationFailed(ChainLink::IntermediateOverRoot))
    } else if !cert_signs(intermediate, leaf) {
        Some(ErrorKind::ChainVerificationFailed(ChainLink::LeafOverIntermediate))
    } else {
        None
    }
}

/// Checks the chain's three signatures, in order from the root down.
pub fn verify_chain(chain: &CertChain) -> (r: Result<(), VerifyError>)
    ensures
        failure_of(r) == chain_failure(chain.leaf@, chain.intermediate@, chain.root@),
{
    if !(Check::Link { issuer: &chain.root, subject: &chain.root }).run() {
        return Err(VerifyError::UntrustedRoot);
    }
    if !(Check::Link { issuer: &chain.root, subject: &chain.intermediate }).run() {
        return Err(VerifyError::ChainVerificationFailed(ChainLink::IntermediateOverRoot));
    }
    if !(Check::Link { issuer: &chain.intermediate, subject: &chain.leaf }).run() {
        return Err(VerifyError::ChainVerificationFailed(ChainLink::LeafOverIntermediate));
    }
    Ok(())
}

/// Whether the chain's root is the given trust anchor, byte for byte. This is
/// apart from the root's self-signature: a bundled root is only trusted once
/// it equals an anchor configured out of band.
pub fn root_is_anchor(chain: &CertChain, anchor: &Vec<u8>) -> (r: bool)
    ensures
        r == (chain.root@ == anchor@),
{
    bytes_equal(chain.root.der(), anchor)
}

} // verus!
