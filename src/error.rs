use vstd::prelude::*;

verus! {

/// The link of the endorsement chain whose signature check failed.
#[derive(Debug, Clone, Copy, PartialEq, Eq, Structural)]
pub enum ChainLink {
    /// The intermediate certificate over the root's key.
    IntermediateOverRoot,
    /// The leaf certificate over the intermediate's key.
    LeafOverIntermediate,
}

/// The kind of a verification failure, without its diagnostic payload.
#[derive(Debug, Clone, Copy, PartialEq, Eq, Structural)]
pub enum ErrorKind {
    MalformedReport,
    InvalidCertificate,
    UntrustedRoot,
    ChainVerificationFailed(ChainLink),
    ReportSignatureInvalid,
    CertificateReportMismatch,
    InvalidNonceEncoding,
    NonceLengthMismatch,
    NonceMismatch,
}

/// A verification failure. Only a nonce mismatch carries text: both values,
/// hex-encoded, for the operator.
#[derive(Debug, Clone, PartialEq, Eq)]
pub enum VerifyError {
    /// The buffer does not have the report's layout.
    MalformedReport,
    /// A certificate does not parse, there are not exactly three, or their
    /// names do not link in chain order.
    InvalidCertificate,
    /// The root's signature over itself does not verify.
    UntrustedRoot,
    /// A signature of the chain below the root does not verify.
    ChainVerificationFailed(ChainLink),
    /// The report's signature does not verify under the leaf's key.
    ReportSignatureInvalid,
    /// The leaf was not issued for the report's chip and TCB version.
    CertificateReportMismatch,
    /// The expected nonce's text is neither valid hex nor valid base64.
    InvalidNonceEncoding,
    /// The expected nonce and the report's nonce field differ in length.
    NonceLengthMismatch { expected_len: usize, found_len: usize },
    /// The expected nonce and the report's nonce field differ.
    NonceMismatch { found: String, expected: String },
}

impl VerifyError {
    pub open spec fn spec_kind(&self) -> ErrorKind {
        match self {
            VerifyError::MalformedReport => ErrorKind::MalformedReport,
            VerifyError::InvalidCertificate => ErrorKind::InvalidCertificate,
            VerifyError::UntrustedRoot => ErrorKind::UntrustedRoot,
            VerifyError::ChainVerificationFailed(l) => ErrorKind::ChainVerificationFailed(*l),
            VerifyError::ReportSignatureInvalid => ErrorKind::ReportSignatureInvalid,
            VerifyError::CertificateReportMismatch => ErrorKind::CertificateReportMismatch,
            VerifyError::InvalidNonceEncoding => ErrorKind::InvalidNonceEncoding,
            VerifyError::NonceLengthMismatch { .. } => ErrorKind::NonceLengthMismatch,
            VerifyError::NonceMismatch { .. } => ErrorKind::NonceMismatch,
        }
    }

    /// The kind of this failure.
    #[verifier::when_used_as_spec(spec_kind)]
    pub fn kind(&self) -> (r: ErrorKind)
        ensures
            r == self.spec_kind(),
    {
        match self {
            VerifyError::MalformedReport => ErrorKind::MalformedReport,
            VerifyError::InvalidCertificate => ErrorKind::InvalidCertificate,
            VerifyError::UntrustedRoot => ErrorKind::UntrustedRoot,
            VerifyError::ChainVerificationFailed(l) => ErrorKind::ChainVerificationFailed(*l),
            VerifyError::ReportSignatureInvalid => ErrorKind::ReportSignatureInvalid,
            VerifyError::CertificateReportMismatch => ErrorKind::CertificateReportMismatch,
            VerifyError::InvalidNonceEncoding => ErrorKind::InvalidNonceEncoding,
            VerifyError::NonceLengthMismatch { .. } => ErrorKind::NonceLengthMismatch,
            VerifyError::NonceMismatch { .. } => ErrorKind::NonceMismatch,
        }
    }
}

/// The kind of failure of an outcome, `None` on success.
pub open spec fn failure_of<T>(r: Result<T, VerifyError>) -> Option<ErrorKind> {
    match r {
        Ok(_) => None,
        Err(e) => Some(e.spec_kind()),
    }
}

} // verus!
