use vstd::prelude::*;

use crate::bytes::{bytes_equal, copy_range};
use crate::error::VerifyError;

verus! {

/// Total length of an attestation report, in bytes.
pub const REPORT_LEN: usize = 1184;

/// Length of the prefix that the report's signature covers.
pub const SIGNED_LEN: usize = 0x2a0;

pub const VERSION_AT: usize = 0x00;
pub const GUEST_SVN_AT: usize = 0x04;
pub const POLICY_AT: usize = 0x08;
pub const VMPL_AT: usize = 0x30;
pub const CURRENT_TCB_AT: usize = 0x38;
pub const REPORT_DATA_AT: usize = 0x50;
pub const MEASUREMENT_AT: usize = 0x90;
pub const MEASUREMENT_LEN: usize = 48;
pub const HOST_DATA_AT: usize = 0xc0;
pub const HOST_DATA_LEN: usize = 32;
pub const REPORTED_TCB_AT: usize = 0x180;
pub const CHIP_ID_AT: usize = 0x1a0;
pub const CHIP_ID_LEN: usize = 64;

#[verifier::external_type_specification]
#[verifier::external_body]
pub struct ExFirmwareReport(sev::firmware::guest::AttestationReport);

/// Whether sev's report parser accepts these bytes (it knows the report
/// versions and processor generations).
pub uninterp spec fn firmware_accepts(b: Seq<u8>) -> bool;

/// Relies on `AttestationReport::from_bytes` of `sev`: whether it succeeds
/// depends on the bytes alone.
#[verifier::external_body]
pub(crate) fn parse_firmware_report(b: &Vec<u8>) -> (r: Option<
    sev::firmware::guest::AttestationReport,
>)
    ensures
        r is Some <==> firmware_accepts(b@),
{
    <sev::firmware::guest::AttestationReport as sev::parser::ByteParser<()>>::from_bytes(
        b.as_slice(),
    ).ok()
}

/// The bytes that sev writes back for the report it parses from `b`, `None`
/// where parsing or writing fails. Fields that sev does not keep come back
/// as zero.
pub uninterp spec fn firmware_reencoding(b: Seq<u8>) -> Option<Seq<u8>>;

/// Report bytes together with what sev parsed from exactly those bytes.
pub(crate) struct ParsedFirmware {
    bytes: Vec<u8>,
    parsed: sev::firmware::guest::AttestationReport,
}

impl ParsedFirmware {
    fn parse(bytes: Vec<u8>) -> (r: Option<ParsedFirmware>)
        ensures
            r is Some <==> firmware_accepts(bytes@),
            r matches Some(f) ==> f.bytes@ == bytes@,
    {
        match parse_firmware_report(&bytes) {
            Some(parsed) => Some(ParsedFirmware { bytes, parsed }),
            None => None,
        }
    }
}

/// Relies on `ByteParser::to_bytes` of sev's `AttestationReport`: it writes
/// the parsed report back out. The report is the one parsed from the bytes
/// kept beside it.
#[verifier::external_body]
fn reencode(f: &ParsedFirmware) -> (r: Option<Vec<u8>>)
    ensures
        match r {
            Some(v) => firmware_reencoding(f.bytes@) == Some(v@),
            None => firmware_reencoding(f.bytes@) is None,
        },
{
    <sev::firmware::guest::AttestationReport as sev::parser::ByteParser<()>>::to_bytes(
        &f.parsed,
    ).ok().map(|a| a.to_vec())
}

pub open spec fn le_u32(b: Seq<u8>, at: int) -> int {
    b[at] + 0x100 * b[at + 1] + 0x1_0000 * b[at + 2] + 0x100_0000 * b[at + 3]
}

pub open spec fn le_u64(b: Seq<u8>, at: int) -> int {
    le_u32(b, at) + 0x1_0000_0000 * le_u32(b, at + 4)
}

pub open spec fn zero_between(b: Seq<u8>, lo: int, hi: int) -> bool {
    forall|i: int| lo <= i < hi ==> b[i] == 0
}

/// The must-be-zero regions of the layout: after the key information, after
/// the processor identification, the bytes between the version fields,
/// after the mitigation vectors, and after the two signature components.
pub open spec fn reserved_clear(b: Seq<u8>) -> bool {
    &&& zero_between(b, 0x4c, 0x50)
    &&& zero_between(b, 0x18b, 0x1a0)
    &&& b[0x1eb] == 0
    &&& b[0x1ef] == 0
    &&& zero_between(b, 0x208, 0x2a0)
    &&& zero_between(b, 0x330, 0x4a0)
}

/// Whether a buffer decodes as an attestation report: exact length, clear
/// reserved regions, a version and processor that sev knows, and no byte
/// that sev drops (such as the reserved bytes of a TCB version): sev's
/// re-encoding, which its signature check hashes, gives back the buffer.
pub open spec fn report_accepted(b: Seq<u8>) -> bool {
    &&& b.len() == REPORT_LEN
    &&& reserved_clear(b)
    &&& firmware_accepts(b)
    &&& firmware_reencoding(b) == Some(b)
}

pub open spec fn nonce_field(b: Seq<u8>) -> Seq<u8> {
    b.subrange(REPORT_DATA_AT as int, MEASUREMENT_AT as int)
}

pub open spec fn measurement_field(b: Seq<u8>) -> Seq<u8> {
    b.subrange(MEASUREMENT_AT as int, MEASUREMENT_AT + MEASUREMENT_LEN)
}

pub open spec fn host_data_field(b: Seq<u8>) -> Seq<u8> {
    b.subrange(HOST_DATA_AT as int, HOST_DATA_AT + HOST_DATA_LEN)
}

pub open spec fn chip_id_field(b: Seq<u8>) -> Seq<u8> {
    b.subrange(CHIP_ID_AT as int, CHIP_ID_AT + CHIP_ID_LEN)
}

pub open spec fn reported_tcb_field(b: Seq<u8>) -> Seq<u8> {
    b.subrange(REPORTED_TCB_AT as int, REPORTED_TCB_AT + 8)
}

/// A decoded attestation report. Its view is the report's bytes; the fields
/// are read from them at fixed offsets, little-endian.
pub struct Report {
    bytes: Vec<u8>,
    report_data: Vec<u8>,
    measurement: Vec<u8>,
    host_data: Vec<u8>,
    chip_id: Vec<u8>,
    reported_tcb: Vec<u8>,
    version: u32,
    guest_svn: u32,
    policy: u64,
    vmpl: u32,
    current_tcb: u64,
    pub(crate) firmware: sev::firmware::guest::AttestationReport,
}

impl View for Report {
    type V = Seq<u8>;

    closed spec fn view(&self) -> Seq<u8> {
        self.bytes@
    }
}

impl Report {
    #[verifier::type_invariant]
    closed spec fn inv(self) -> bool {
        let b = self.bytes@;
        &&& report_accepted(b)
        &&& self.report_data@ == nonce_field(b)
        &&& self.measurement@ == measurement_field(b)
        &&& self.host_data@ == host_data_field(b)
        &&& self.chip_id@ == chip_id_field(b)
        &&& self.reported_tcb@ == reported_tcb_field(b)
        &&& self.version == le_u32(b, VERSION_AT as int)
        &&& self.guest_svn == le_u32(b, GUEST_SVN_AT as int)
        &&& self.policy == le_u64(b, POLICY_AT as int)
        &&& self.vmpl == le_u32(b, VMPL_AT as int)
        &&& self.current_tcb == le_u64(b, CURRENT_TCB_AT as int)
    }

    /// The report's bytes, which always decode.
    pub fn bytes(&self) -> (r: &Vec<u8>)
        ensures
            r@ == self@,
            report_accepted(self@),
    {
        proof {
            use_type_invariant(self);
        }
        &self.bytes
    }

    /// The 64-byte nonce field ("report data").
    pub fn report_data(&self) -> (r: &Vec<u8>)
        ensures
            r@ == nonce_field(self@),
            r@.len() == crate::nonce::NONCE_LEN,
    {
        proof {
            use_type_invariant(self);
        }
        &self.report_data
    }

    /// The 48-byte launch measurement.
    pub fn measurement(&self) -> (r: &Vec<u8>)
        ensures
            r@ == measurement_field(self@),
    {
        proof {
            use_type_invariant(self);
        }
        &self.measurement
    }

    /// The 32 bytes that the host supplied at launch.
    pub fn host_data(&self) -> (r: &Vec<u8>)
        ensures
            r@ == host_data_field(self@),
    {
        proof {
            use_type_invariant(self);
        }
        &self.host_data
    }

    /// The 64-byte chip identifier.
    pub fn chip_id(&self) -> (r: &Vec<u8>)
        ensures
            r@ == chip_id_field(self@),
    {
        proof {
            use_type_invariant(self);
        }
        &self.chip_id
    }

    /// The eight bytes of the TCB version that the signing key was derived for.
    pub fn reported_tcb(&self) -> (r: &Vec<u8>)
        ensures
            r@ == reported_tcb_field(self@),
    {
        proof {
            use_type_invariant(self);
        }
        &self.reported_tcb
    }

    /// The report format version.
    pub fn version(&self) -> (r: u32)
        ensures
            r == le_u32(self@, VERSION_AT as int),
    {
        proof {
            use_type_invariant(self);
        }
        self.version
    }

    /// The guest's security version number.
    pub fn guest_svn(&self) -> (r: u32)
        ensures
            r == le_u32(self@, GUEST_SVN_AT as int),
    {
        proof {
            use_type_invariant(self);
        }
        self.guest_svn
    }

    /// The guest policy bitmask.
    pub fn policy(&self) -> (r: u64)
        ensures
            r == le_u64(self@, POLICY_AT as int),
    {
        proof {
            use_type_invariant(self);
        }
        self.policy
    }

    /// The virtual machine privilege level that requested the report.
    pub fn vmpl(&self) -> (r: u32)
        ensures
            r == le_u32(self@, VMPL_AT as int),
    {
        proof {
            use_type_invariant(self);
        }
        self.vmpl
    }

    /// The platform's current TCB version.
    pub fn current_tcb(&self) -> (r: u64)
        ensures
            r == le_u64(self@, CURRENT_TCB_AT as int),
    {
        proof {
            use_type_invariant(self);
        }
        self.current_tcb
    }
}

fn read_u32(b: &Vec<u8>, at: usize) -> (r: u32)
    requires
        b@.len() == REPORT_LEN,
        at + 4 <= REPORT_LEN,
    ensures
        r == le_u32(b@, at as int),
{
    b[at] as u32 + 0x100 * (b[at + 1] as u32) + 0x1_0000 * (b[at + 2] as u32) + 0x100_0000 * (
    b[at + 3] as u32)
}

fn read_u64(b: &Vec<u8>, at: usize) -> (r: u64)
    requires
        b@.len() == REPORT_LEN,
        at + 8 <= REPORT_LEN,
    ensures
        r == le_u64(b@, at as int),
{
    let lo = read_u32(b, at);
    let hi = read_u32(b, at + 4);
    lo as u64 + 0x1_0000_0000 * (hi as u64)
}

fn all_zero(b: &Vec<u8>, lo: usize, hi: usize) -> (r: bool)
    requires
        lo <= hi <= b@.len(),
    ensures
        r == zero_between(b@, lo as int, hi as int),
{
    let mut i: usize = lo;
    while i < hi
        invariant
            lo <= i <= hi <= b@.len(),
            zero_between(b@, lo as int, i as int),
        decreases hi - i,
    {
        if b[i] != 0 {
            return false;
        }
        i = i + 1;
    }
    true
}

/// Decodes an attestation report. All or nothing: a buffer of another length,
/// with a set reserved byte, of a version that the parser does not know, or
/// with a byte that sev's re-encoding does not give back (so that its
/// signature check would not cover it) is `MalformedReport`.
pub fn decode_report(bytes: Vec<u8>) -> (r: Result<Report, VerifyError>)
    ensures
        r is Ok <==> report_accepted(bytes@),
        bytes@.len() != REPORT_LEN ==> r == Err::<Report, VerifyError>(VerifyError::MalformedReport),
        match r {
            Ok(rep) => rep@ == bytes@,
            Err(e) => e == VerifyError::MalformedReport,
        },
{
    if bytes.len() != REPORT_LEN {
        return Err(VerifyError::MalformedReport);
    }
    let clear = all_zero(&bytes, 0x4c, 0x50) && all_zero(&bytes, 0x18b, 0x1a0) && bytes[0x1eb]
        == 0 && bytes[0x1ef] == 0 && all_zero(&bytes, 0x208, 0x2a0) && all_zero(
        &bytes,
        0x330,
        0x4a0,
    );
    if !clear {
        return Err(VerifyError::MalformedReport);
    }
    let ghost input = bytes@;
    let pf = match ParsedFirmware::parse(bytes) {
        Some(f) => f,
        None => return Err(VerifyError::MalformedReport),
    };
    let same = match reencode(&pf) {
        Some(v) => bytes_equal(&v, &pf.bytes),
        None => false,
    };
    if !same {
        return Err(VerifyError::MalformedReport);
    }
    let ParsedFirmware { bytes, parsed: firmware } = pf;
    assert(bytes@ == input);
    let report_data = copy_range(&bytes, REPORT_DATA_AT, MEASUREMENT_AT);
    let measurement = copy_range(&bytes, MEASUREMENT_AT, MEASUREMENT_AT + MEASUREMENT_LEN);
    let host_data = copy_range(&bytes, HOST_DATA_AT, HOST_DATA_AT + HOST_DATA_LEN);
    let chip_id = copy_range(&bytes, CHIP_ID_AT, CHIP_ID_AT + CHIP_ID_LEN);
    let reported_tcb = copy_range(&bytes, REPORTED_TCB_AT, REPORTED_TCB_AT + 8);
    let version = read_u32(&bytes, VERSION_AT);
    let guest_svn = read_u32(&bytes, GUEST_SVN_AT);
    let policy = read_u64(&bytes, POLICY_AT);
    let vmpl = read_u32(&bytes, VMPL_AT);
    let current_tcb = read_u64(&bytes, CURRENT_TCB_AT);
    Ok(
        Report {
            bytes,
            report_data,
            measurement,
            host_data,
            chip_id,
            reported_tcb,
            version,
            guest_svn,
            policy,
            vmpl,
            current_tcb,
            firmware,
        },
    )
}

} // verus!
