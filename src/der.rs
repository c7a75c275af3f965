use vstd::prelude::*;

verus! {

/// The element (tag, length, content) that starts at `p`: where its content
/// starts and where it ends. Lengths take the short form or one or two
/// bytes of the long form.
pub open spec fn tlv(b: Seq<u8>, p: int) -> Option<(int, int)> {
    if 0 <= p && p + 2 <= b.len() {
        let l = b[p + 1];
        if l < 0x80 {
            if p + 2 + l <= b.len() {
                Some((p + 2, p + 2 + l))
            } else {
                None
            }
        } else if l == 0x81 && p + 3 <= b.len() {
            if p + 3 + b[p + 2] <= b.len() {
                Some((p + 3, p + 3 + b[p + 2]))
            } else {
                None
            }
        } else if l == 0x82 && p + 4 <= b.len() {
            let n = b[p + 2] * 0x100 + b[p + 3];
            if p + 4 + n <= b.len() {
                Some((p + 4, p + 4 + n))
            } else {
                None
            }
        } else {
            None
        }
    } else {
        None
    }
}

/// Where the element that starts at `p` ends.
pub open spec fn skip(b: Seq<u8>, p: int) -> Option<int> {
    match tlv(b, p) {
        Some((_, e)) => Some(e),
        None => None,
    }
}

/// Where the issuer and subject names of a DER certificate lie, as
/// (issuer start, issuer end, subject start, subject end): the fourth and
/// sixth elements of its to-be-signed body, counting the optional explicit
/// version.
pub open spec fn name_bounds(b: Seq<u8>) -> Option<(int, int, int, int)> {
    match tlv(b, 0) {
        None => None,
        Some((c0, _)) => match tlv(b, c0) {
            None => None,
            Some((c1, _)) => match optional_skip(b, c1, 0xa0) {
                None => None,
                Some(p0) => match skip(b, p0) {
                    None => None,
                    Some(p1) => match skip(b, p1) {
                        None => None,
                        Some(p2) => match skip(b, p2) {
                            None => None,
                            Some(p3) => match skip(b, p3) {
                                None => None,
                                Some(p4) => match skip(b, p4) {
                                    None => None,
                                    Some(p5) => Some((p2, p3, p4, p5)),
                                },
                            },
                        },
                    },
                },
            },
        },
    }
}

/// Skips the element at `p` where it carries `tag`, else stays at `p`.
pub open spec fn optional_skip(b: Seq<u8>, p: int, tag: u8) -> Option<int> {
    if 0 <= p < b.len() && b[p] == tag {
        skip(b, p)
    } else {
        Some(p)
    }
}

/// The encoded issuer and subject names of a DER certificate.
pub open spec fn issuer_and_subject(b: Seq<u8>) -> Option<(Seq<u8>, Seq<u8>)> {
    match name_bounds(b) {
        Some((p2, p3, p4, p5)) => Some((b.subrange(p2, p3), b.subrange(p4, p5))),
        None => None,
    }
}

/// Where the list of extensions of a DER certificate lies (start, end): the
/// content of the sequence inside the body's explicit `[3]` element, which
/// follows the subject's public key and the optional unique identifiers.
pub open spec fn extensions_bounds(b: Seq<u8>) -> Option<(int, int)> {
    match name_bounds(b) {
        None => None,
        Some((_, _, _, p5)) => match skip(b, p5) {
            None => None,
            Some(p6) => match optional_skip(b, p6, 0xa1) {
                None => None,
                Some(p7) => match optional_skip(b, p7, 0xa2) {
                    None => None,
                    Some(p8) => if 0 <= p8 < b.len() && b[p8] == 0xa3 {
                        match tlv(b, p8) {
                            None => None,
                            Some((c, _)) => tlv(b, c),
                        }
                    } else {
                        None
                    },
                },
            },
        },
    }
}

/// The encoded subject name of a DER certificate.
pub open spec fn subject_name(b: Seq<u8>) -> Option<Seq<u8>> {
    match issuer_and_subject(b) {
        Some((_, s)) => Some(s),
        None => None,
    }
}

fn read_tlv(b: &Vec<u8>, p: usize) -> (r: Option<(usize, usize)>)
    ensures
        match r {
            Some((s, e)) => tlv(b@, p as int) == Some((s as int, e as int)),
            None => tlv(b@, p as int) is None,
        },
{
    let n = b.len();
    if p >= n || n - p < 2 {
        return None;
    }
    let l = b[p + 1];
    if l < 0x80 {
        if l as usize <= n - p - 2 {
            Some((p + 2, p + 2 + l as usize))
        } else {
            None
        }
    } else if l == 0x81 && n - p >= 3 {
        let k = b[p + 2] as usize;
        if k <= n - p - 3 {
            Some((p + 3, p + 3 + k))
        } else {
            None
        }
    } else if l == 0x82 && n - p >= 4 {
        let k = b[p + 2] as usize * 0x100 + b[p + 3] as usize;
        if k <= n - p - 4 {
            Some((p + 4, p + 4 + k))
        } else {
            None
        }
    } else {
        None
    }
}

fn skip_tlv(b: &Vec<u8>, p: usize) -> (r: Option<usize>)
    ensures
        match r {
            Some(e) => skip(b@, p as int) == Some(e as int),
            None => skip(b@, p as int) is None,
        },
{
    match read_tlv(b, p) {
        Some((_, e)) => Some(e),
        None => None,
    }
}

fn optional_skip_tlv(b: &Vec<u8>, p: usize, tag: u8) -> (r: Option<usize>)
    ensures
        match r {
            Some(e) => optional_skip(b@, p as int, tag) == Some(e as int),
            None => optional_skip(b@, p as int, tag) is None,
        },
{
    if p < b.len() && b[p] == tag {
        skip_tlv(b, p)
    } else {
        Some(p)
    }
}

fn read_name_bounds(b: &Vec<u8>) -> (r: Option<(usize, usize, usize, usize)>)
    ensures
        match r {
            Some((p2, p3, p4, p5)) => name_bounds(b@) == Some(
                (p2 as int, p3 as int, p4 as int, p5 as int),
            ),
            None => name_bounds(b@) is None,
        },
{
    let (c0, _) = match read_tlv(b, 0) {
        Some(t) => t,
        None => return None,
    };
    let (c1, _) = match read_tlv(b, c0) {
        Some(t) => t,
        None => return None,
    };
    let p0 = match optional_skip_tlv(b, c1, 0xa0) {
        Some(p) => p,
        None => return None,
    };
    let p1 = match skip_tlv(b, p0) {
        Some(p) => p,
        None => return None,
    };
    let p2 = match skip_tlv(b, p1) {
        Some(p) => p,
        None => return None,
    };
    let p3 = match skip_tlv(b, p2) {
        Some(p) => p,
        None => return None,
    };
    let p4 = match skip_tlv(b, p3) {
        Some(p) => p,
        None => return None,
    };
    let p5 = match skip_tlv(b, p4) {
        Some(p) => p,
        None => return None,
    };
    Some((p2, p3, p4, p5))
}

/// The issuer and subject names of a DER certificate, as
/// `issuer_and_subject` says.
pub fn read_issuer_and_subject(b: &Vec<u8>) -> (r: Option<(Vec<u8>, Vec<u8>)>)
    ensures
        match r {
            Some((i, s)) => issuer_and_subject(b@) == Some((i@, s@)),
            None => issuer_and_subject(b@) is None,
        },
{
    match read_name_bounds(b) {
        None => None,
        Some((p2, p3, p4, p5)) => {
            proof {
                assert(tlv(b@, p2 as int) is Some && tlv(b@, p4 as int) is Some);
            }
            Some((crate::bytes::copy_range(b, p2, p3), crate::bytes::copy_range(b, p4, p5)))
        },
    }
}

/// The list of extensions of a DER certificate, as `extensions_bounds` says.
pub fn read_extensions(b: &Vec<u8>) -> (r: Option<Vec<u8>>)
    ensures
        match r {
            Some(v) => extensions_bounds(b@) matches Some((s, e)) && v@ == b@.subrange(s, e),
            None => extensions_bounds(b@) is None,
        },
{
    let (_, _, _, p5) = match read_name_bounds(b) {
        Some(t) => t,
        None => return None,
    };
    let p6 = match skip_tlv(b, p5) {
        Some(p) => p,
        None => return None,
    };
    let p7 = match optional_skip_tlv(b, p6, 0xa1) {
        Some(p) => p,
        None => return None,
    };
    let p8 = match optional_skip_tlv(b, p7, 0xa2) {
        Some(p) => p,
        None => return None,
    };
    if !(p8 < b.len() && b[p8] == 0xa3) {
        return None;
    }
    let (c, _) = match read_tlv(b, p8) {
        Some(t) => t,
        None => return None,
    };
    match read_tlv(b, c) {
        Some((s, e)) => Some(crate::bytes::copy_range(b, s, e)),
        None => None,
    }
}

} // verus!
