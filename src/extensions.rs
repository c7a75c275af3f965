use vstd::prelude::*;

use crate::bytes::copy_range;
use crate::der::{extensions_bounds, read_extensions};
use crate::report::zero_between;

verus! {

/// DER encoding (tag, length, arcs) of the hardware-identifier extension's
/// object identifier, 1.3.6.1.4.1.3704.1.4.
pub open spec fn hwid_oid() -> Seq<u8> {
    seq![0x06u8, 0x09, 0x2b, 0x06, 0x01, 0x04, 0x01, 0x9c, 0x78, 0x01, 0x04]
}

/// DER encoding of the object identifier 1.3.6.1.4.1.3704.1.3.`arc`, the
/// security patch level of one TCB component.
pub open spec fn spl_oid(arc: u8) -> Seq<u8> {
    seq![0x06u8, 0x0a, 0x2b, 0x06, 0x01, 0x04, 0x01, 0x9c, 0x78, 0x01, 0x03, arc]
}

pub const BOOT_LOADER_ARC: u8 = 1;
pub const TEE_ARC: u8 = 2;
pub const SNP_ARC: u8 = 3;
pub const MICROCODE_ARC: u8 = 8;
pub const FMC_ARC: u8 = 9;

pub open spec fn occurs_at(h: Seq<u8>, p: Seq<u8>, i: int) -> bool {
    0 <= i && i + p.len() <= h.len() && h.subrange(i, i + p.len()) == p
}

/// Where `p` first occurs in `h`.
pub open spec fn first_occurrence(h: Seq<u8>, p: Seq<u8>) -> Option<int> {
    if exists|i: int| occurs_at(h, p, i) && forall|j: int| 0 <= j < i ==> !occurs_at(h, p, j) {
        Some(
            choose|i: int| occurs_at(h, p, i) && forall|j: int| 0 <= j < i ==> !occurs_at(h, p, j),
        )
    } else {
        None
    }
}

/// The content of the OCTET STRING (short length form) that follows the
/// first occurrence of `oid` in a certificate's list of extensions: the
/// extension's value.
pub open spec fn extension_value(exts: Seq<u8>, oid: Seq<u8>) -> Option<Seq<u8>> {
    match first_occurrence(exts, oid) {
        Some(i) => {
            let p = i + oid.len();
            if p + 2 <= exts.len() && exts[p] == 0x04 && exts[p + 1] < 0x80 && p + 2 + exts[p + 1]
                <= exts.len() {
                Some(exts.subrange(p + 2, p + 2 + exts[p + 1]))
            } else {
                None
            }
        },
        None => None,
    }
}

/// Whether `v` is the start of the chip identifier and the identifier's
/// remaining bytes are zero (a 64-byte value is the whole identifier).
pub open spec fn chip_prefix(v: Seq<u8>, chip_id: Seq<u8>) -> bool {
    &&& v.len() <= chip_id.len()
    &&& v == chip_id.subrange(0, v.len() as int)
    &&& zero_between(chip_id, v.len() as int, chip_id.len() as int)
}

/// Whether an extension value names the chip: the identifier's bytes, raw or
/// wrapped in an OCTET STRING, where a shorter identifier stands for the
/// start of the report's and the rest is zero.
pub open spec fn chip_id_agrees(v: Seq<u8>, chip_id: Seq<u8>) -> bool {
    ||| chip_prefix(v, chip_id)
    ||| v.len() >= 2 && v[0] == 0x04 && v[1] == v.len() - 2 && chip_prefix(
        v.subrange(2, v.len() as int),
        chip_id,
    )
}

/// The value of a one-byte DER INTEGER: `02 01 v`, or `02 02 00 v` for a
/// value with its top bit set.
pub open spec fn spl_value(v: Seq<u8>) -> Option<u8> {
    if v.len() == 3 && v[0] == 0x02 && v[1] == 0x01 {
        Some(v[2])
    } else if v.len() == 4 && v[0] == 0x02 && v[1] == 0x02 && v[2] == 0x00 {
        Some(v[3])
    } else {
        None
    }
}

pub open spec fn spl_agrees(der: Seq<u8>, arc: u8, level: u8) -> bool {
    match extension_value(der, spl_oid(arc)) {
        Some(v) => spl_value(v) == Some(level),
        None => false,
    }
}

/// Whether a leaf certificate's list of extensions names the chip and TCB
/// version of a report. The TCB's byte layout is the later one (FMC, boot loader,
/// TEE, SNP, ..., microcode) where the certificate names an FMC level, the
/// earlier one (boot loader, TEE, ..., SNP at 6, microcode) otherwise.
pub open spec fn extensions_match(der: Seq<u8>, chip_id: Seq<u8>, tcb: Seq<u8>) -> bool {
    let later = first_occurrence(der, spl_oid(FMC_ARC)) is Some;
    &&& tcb.len() == 8
    &&& match extension_value(der, hwid_oid()) {
        Some(v) => chip_id_agrees(v, chip_id),
        None => false,
    }
    &&& spl_agrees(der, BOOT_LOADER_ARC, if later { tcb[1] } else { tcb[0] })
    &&& spl_agrees(der, TEE_ARC, if later { tcb[2] } else { tcb[1] })
    &&& spl_agrees(der, SNP_ARC, if later { tcb[3] } else { tcb[6] })
    &&& spl_agrees(der, MICROCODE_ARC, tcb[7])
}

/// Whether a leaf certificate (DER) was issued for the chip and TCB version
/// of a report, by the extensions in its body.
pub open spec fn leaf_matches(der: Seq<u8>, chip_id: Seq<u8>, tcb: Seq<u8>) -> bool {
    match extensions_bounds(der) {
        Some((s, e)) => extensions_match(der.subrange(s, e), chip_id, tcb),
        None => false,
    }
}

fn occurs_here(h: &Vec<u8>, p: &Vec<u8>, i: usize) -> (r: bool)
    requires
        i + p@.len() <= h@.len(),
    ensures
        r == occurs_at(h@, p@, i as int),
{
    let n = h.len();
    let mut k: usize = 0;
    while k < p.len()
        invariant
            n == h@.len(),
            i + p@.len() <= h@.len(),
            0 <= k <= p@.len(),
            forall|j: int| 0 <= j < k ==> h@[i + j] == p@[j],
        decreases p@.len() - k,
    {
        if h[i + k] != p[k] {
            assert(h@.subrange(i as int, i + p@.len())[k as int] != p@[k as int]);
            return false;
        }
        k = k + 1;
    }
    assert(h@.subrange(i as int, i + p@.len()) =~= p@);
    true
}

/// The first position at which `p` occurs in `h`.
pub fn find(h: &Vec<u8>, p: &Vec<u8>) -> (r: Option<usize>)
    ensures
        match r {
            Some(i) => first_occurrence(h@, p@) == Some(i as int),
            None => first_occurrence(h@, p@) is None,
        },
{
    if p.len() > h.len() {
        assert forall|i: int| !occurs_at(h@, p@, i) by {}
        return None;
    }
    let last = h.len() - p.len();
    let mut i: usize = 0;
    while i <= last
        invariant
            last == h@.len() - p@.len(),
            0 <= i <= last + 1,
            forall|j: int| 0 <= j < i ==> !occurs_at(h@, p@, j),
        decreases last + 1 - i,
    {
        if occurs_here(h, p, i) {
            let ghost w = i as int;
            assert(occurs_at(h@, p@, w) && forall|j: int| 0 <= j < w ==> !occurs_at(h@, p@, j));
            proof {
                let c = choose|c: int|
                    occurs_at(h@, p@, c) && forall|j: int| 0 <= j < c ==> !occurs_at(h@, p@, j);
                assert(!(c < w));
                assert(!(w < c));
            }
            return Some(i);
        }
        if i == last {
            assert forall|j: int| !occurs_at(h@, p@, j) by {}
            return None;
        }
        i = i + 1;
    }
    assert forall|j: int| !occurs_at(h@, p@, j) by {}
    None
}

/// The value of the extension that `oid` names, as `extension_value` says.
fn find_extension_value(der: &Vec<u8>, oid: &Vec<u8>) -> (r: Option<Vec<u8>>)
    ensures
        match r {
            Some(v) => extension_value(der@, oid@) == Some(v@),
            None => extension_value(der@, oid@) is None,
        },
{
    match find(der, oid) {
        None => None,
        Some(i) => {
            let n = der.len();
            assert(i + oid@.len() <= n);
            let p = i + oid.len();
            if p < n && n - p >= 2 && der[p] == 0x04 && der[p + 1] < 0x80 && (der[p + 1] as usize)
                <= n - p - 2 {
                Some(copy_range(der, p + 2, p + 2 + der[p + 1] as usize))
            } else {
                None
            }
        },
    }
}

fn chip_prefix_from(v: &Vec<u8>, start: usize, chip_id: &Vec<u8>) -> (r: bool)
    requires
        start <= v@.len(),
    ensures
        r == chip_prefix(v@.subrange(start as int, v@.len() as int), chip_id@),
{
    let ghost w = v@.subrange(start as int, v@.len() as int);
    let m = v.len();
    let n: usize = m - start;
    if n > chip_id.len() {
        return false;
    }
    let mut i: usize = 0;
    while i < chip_id.len()
        invariant
            w == v@.subrange(start as int, v@.len() as int),
            n == w.len(),
            n <= chip_id@.len(),
            start + n == v@.len(),
            m == v@.len(),
            0 <= i <= chip_id@.len(),
            forall|j: int| 0 <= j < i && j < n ==> w[j] == chip_id@[j],
            forall|j: int| n <= j < i ==> chip_id@[j] == 0,
        decreases chip_id@.len() - i,
    {
        if i < n {
            if v[start + i] != chip_id[i] {
                assert(w[i as int] != chip_id@.subrange(0, n as int)[i as int]);
                return false;
            }
        } else if chip_id[i] != 0 {
            assert(!zero_between(chip_id@, n as int, chip_id@.len() as int));
            return false;
        }
        i = i + 1;
    }
    assert(w =~= chip_id@.subrange(0, n as int));
    true
}

fn chip_id_agrees_exec(v: &Vec<u8>, chip_id: &Vec<u8>) -> (r: bool)
    ensures
        r == chip_id_agrees(v@, chip_id@),
{
    assert(v@.subrange(0, v@.len() as int) =~= v@);
    if chip_prefix_from(v, 0, chip_id) {
        return true;
    }
    if v.len() < 2 || v[0] != 0x04 || v[1] as usize != v.len() - 2 {
        return false;
    }
    chip_prefix_from(v, 2, chip_id)
}

fn spl_agrees_exec(der: &Vec<u8>, arc: u8, level: u8) -> (r: bool)
    ensures
        r == spl_agrees(der@, arc, level),
{
    let oid = vec![0x06u8, 0x0a, 0x2b, 0x06, 0x01, 0x04, 0x01, 0x9c, 0x78, 0x01, 0x03, arc];
    assert(oid@ =~= spl_oid(arc));
    match find_extension_value(der, &oid) {
        None => false,
        Some(v) => {
            if v.len() == 3 && v[0] == 0x02 && v[1] == 0x01 {
                v[2] == level
            } else if v.len() == 4 && v[0] == 0x02 && v[1] == 0x02 && v[2] == 0x00 {
                v[3] == level
            } else {
                false
            }
        },
    }
}

/// Cross-checks a leaf certificate against a report's chip identifier and
/// reported TCB version.
pub fn leaf_matches_report(der: &Vec<u8>, chip_id: &Vec<u8>, tcb: &Vec<u8>) -> (r: bool)
    ensures
        r == leaf_matches(der@, chip_id@, tcb@),
{
    match read_extensions(der) {
        Some(exts) => extensions_match_exec(&exts, chip_id, tcb),
        None => false,
    }
}

fn extensions_match_exec(der: &Vec<u8>, chip_id: &Vec<u8>, tcb: &Vec<u8>) -> (r: bool)
    ensures
        r == extensions_match(der@, chip_id@, tcb@),
{
    if tcb.len() != 8 {
        return false;
    }
    let hwid = vec![0x06u8, 0x09, 0x2b, 0x06, 0x01, 0x04, 0x01, 0x9c, 0x78, 0x01, 0x04];
    assert(hwid@ =~= hwid_oid());
    let chip_ok = match find_extension_value(der, &hwid) {
        Some(v) => chip_id_agrees_exec(&v, chip_id),
        None => false,
    };
    if !chip_ok {
        return false;
    }
    let fmc = vec![0x06u8, 0x0a, 0x2b, 0x06, 0x01, 0x04, 0x01, 0x9c, 0x78, 0x01, 0x03, FMC_ARC];
    assert(fmc@ =~= spl_oid(FMC_ARC));
    let later = find(der, &fmc).is_some();
    let (bl, tee, snp) = if later {
        (tcb[1], tcb[2], tcb[3])
    } else {
        (tcb[0], tcb[1], tcb[6])
    };
    spl_agrees_exec(der, BOOT_LOADER_ARC, bl) && spl_agrees_exec(der, TEE_ARC, tee)
        && spl_agrees_exec(der, SNP_ARC, snp) && spl_agrees_exec(der, MICROCODE_ARC, tcb[7])
}

} // verus!
