//! Scanning a module's header for its declared memory import bounds.
//!
//! The runtime sizes its linear memory from the module's own import
//! declarations.  Only the header is parsed: the section list is walked to
//! the import section, and the first memory import's limits are read.

use vstd::prelude::*;

verus! {

/// What a header scan found: a malformed header, a module that declares no
/// bounded memory import, or the declared `(min, max)` page bounds.
#[derive(Clone, Copy, Debug, PartialEq, Eq, Structural)]
pub enum MemoryImportScan {
    /// The bytes are not a well-formed module header.
    Malformed,
    /// No memory import with both bounds was declared.
    NoLimits,
    /// The declared minimum and maximum page counts.
    Limits(u32, u32),
}

/// The LEB128 unsigned value at `pos`, read over at most `fuel` bytes,
/// together with the position after it.
pub open spec fn leb(s: Seq<u8>, pos: int, fuel: nat) -> Option<(nat, int)>
    decreases fuel,
{
    if fuel == 0 || pos < 0 || pos >= s.len() {
        None
    } else {
        let b = s[pos];
        if b < 128 {
            Some((b as nat, pos + 1))
        } else {
            match leb(s, pos + 1, (fuel - 1) as nat) {
                None => None,
                Some((v, next)) => Some((((b - 128) as nat + 128 * v), next)),
            }
        }
    }
}

/// `128 ^ n`, the value bound of an `n`-byte LEB128 read.
pub open spec fn pow128(n: nat) -> nat
    decreases n,
{
    if n == 0 {
        1
    } else {
        128 * pow128((n - 1) as nat)
    }
}

/// `128 ^ n` is positive.
pub proof fn lemma_pow128_pos(n: nat)
    ensures
        pow128(n) >= 1,
    decreases n,
{
    if n > 0 {
        lemma_pow128_pos((n - 1) as nat);
    }
}

/// A successful LEB128 read moves forward, stays inside the bytes, and is
/// bounded by `128 ^ fuel`.
pub proof fn lemma_leb_props(s: Seq<u8>, pos: int, fuel: nat)
    ensures
        leb(s, pos, fuel) matches Some((v, next)) ==> pos < next <= s.len() && v < pow128(fuel),
    decreases fuel,
{
    if fuel > 0 && 0 <= pos < s.len() {
        let b = s[pos];
        assert(pow128(fuel) == 128 * pow128((fuel - 1) as nat));
        lemma_pow128_pos((fuel - 1) as nat);
        if b >= 128 {
            lemma_leb_props(s, pos + 1, (fuel - 1) as nat);
            assert(pow128(fuel) == 128 * pow128((fuel - 1) as nat));
            match leb(s, pos + 1, (fuel - 1) as nat) {
                None => {},
                Some((v2, _n2)) => {
                    let p = pow128((fuel - 1) as nat);
                    assert((b - 128) as nat + 128 * v2 < 128 * p) by (nonlinear_arith)
                        requires
                            v2 < p,
                            128 <= b < 256,
                    ;
                },
            }
        }
    }
}

/// `128 ^ fuel` stays below `2 ^ 35` for a five-byte read.
pub proof fn lemma_pow128_small(fuel: nat)
    requires
        fuel <= 5,
    ensures
        pow128(fuel) <= 0x800000000,
{
    reveal_with_fuel(pow128, 6);
    if fuel == 0 {
        assert(pow128(0) == 1);
    } else if fuel == 1 {
        assert(pow128(1) == 128);
    } else if fuel == 2 {
        assert(pow128(2) == 16384);
    } else if fuel == 3 {
        assert(pow128(3) == 2097152);
    } else if fuel == 4 {
        assert(pow128(4) == 268435456);
    } else {
        assert(pow128(5) == 0x800000000);
    }
}

/// Reads the LEB128 value at `pos`; agrees exactly with [`leb`].
fn leb_read(s: &[u8], pos: usize, fuel: u8) -> (r: Option<(u64, usize)>)
    requires
        fuel <= 5,
    ensures
        match r {
            Some((v, next)) => leb(s@, pos as int, fuel as nat) == Some((v as nat, next as int))
                && pos < next <= s@.len(),
            None => leb(s@, pos as int, fuel as nat) is None,
        },
    decreases fuel,
{
    if fuel == 0 || pos >= s.len() {
        return None;
    }
    let b = s[pos];
    if b < 128 {
        Some((b as u64, pos + 1))
    } else {
        match leb_read(s, pos + 1, fuel - 1) {
            None => None,
            Some((v, next)) => {
                proof {
                    lemma_leb_props(s@, pos + 1, (fuel - 1) as nat);
                    lemma_pow128_small((fuel - 1) as nat);
                }
                Some(((b - 128) as u64 + 128 * v, next))
            },
        }
    }
}

/// The limits record at `pos`: minimum, optional maximum, and the position
/// after the record.
pub open spec fn spec_limits(s: Seq<u8>, pos: int) -> Option<(nat, Option<nat>, int)> {
    if pos < 0 || pos >= s.len() {
        None
    } else {
        let flags = s[pos];
        if flags == 0 {
            match leb(s, pos + 1, 5) {
                None => None,
                Some((min, next)) => Some((min, None, next)),
            }
        } else if flags == 1 {
            match leb(s, pos + 1, 5) {
                None => None,
                Some((min, p)) => match leb(s, p, 5) {
                    None => None,
                    Some((max, next)) => Some((min, Some(max), next)),
                },
            }
        } else {
            None
        }
    }
}

/// Reads the limits record at `pos`; agrees exactly with [`spec_limits`].
fn limits_read(s: &[u8], pos: usize) -> (r: Option<(u64, Option<u64>, usize)>)
    ensures
        match r {
            Some((min, maxopt, next)) => spec_limits(s@, pos as int) == Some(
                (
                    min as nat,
                    match maxopt {
                        Some(m) => Some(m as nat),
                        None => None::<nat>,
                    },
                    next as int,
                ),
            ) && next <= s@.len(),
            None => spec_limits(s@, pos as int) is None,
        },
{
    if pos >= s.len() {
        return None;
    }
    let flags = s[pos];
    if flags == 0 {
        match leb_read(s, pos + 1, 5) {
            None => None,
            Some((min, next)) => Some((min, None, next)),
        }
    } else if flags == 1 {
        match leb_read(s, pos + 1, 5) {
            None => None,
            Some((min, p)) => match leb_read(s, p, 5) {
                None => None,
                Some((max, next)) => Some((min, Some(max), next)),
            },
        }
    } else {
        None
    }
}

/// Walks the import entries: the first memory import decides the outcome.
pub open spec fn spec_scan_entries(s: Seq<u8>, pos: int, count: nat) -> MemoryImportScan
    decreases count,
{
    if count == 0 {
        MemoryImportScan::NoLimits
    } else {
        match leb(s, pos, 5) {
            None => MemoryImportScan::Malformed,
            Some((mlen, p1)) => if p1 + mlen > s.len() {
                MemoryImportScan::Malformed
            } else {
                match leb(s, p1 + mlen, 5) {
                    None => MemoryImportScan::Malformed,
                    Some((flen, p2)) => if p2 + flen >= s.len() {
                        MemoryImportScan::Malformed
                    } else {
                        let kind = s[p2 + flen];
                        let p3 = p2 + flen + 1;
                        if kind == 0 {
                            match leb(s, p3, 5) {
                                None => MemoryImportScan::Malformed,
                                Some((_idx, p4)) => spec_scan_entries(s, p4, (count - 1) as nat),
                            }
                        } else if kind == 1 {
                            match spec_limits(s, p3 + 1) {
                                None => MemoryImportScan::Malformed,
                                Some((_min, _max, p4)) => spec_scan_entries(
                                    s,
                                    p4,
                                    (count - 1) as nat,
                                ),
                            }
                        } else if kind == 2 {
                            match spec_limits(s, p3) {
                                None => MemoryImportScan::Malformed,
                                Some((min, maxopt, _next)) => match maxopt {
                                    None => MemoryImportScan::NoLimits,
                                    Some(max) => if min > u32::MAX || max > u32::MAX {
                                        MemoryImportScan::Malformed
                                    } else {
                                        MemoryImportScan::Limits(min as u32, max as u32)
                                    },
                                },
                            }
                        } else if kind == 3 {
                            spec_scan_entries(s, p3 + 2, (count - 1) as nat)
                        } else {
                            MemoryImportScan::Malformed
                        }
                    },
                }
            },
        }
    }
}

/// The import section's outcome: entry count, then the entries.
pub open spec fn spec_scan_import_section(s: Seq<u8>, pos: int) -> MemoryImportScan {
    match leb(s, pos, 5) {
        None => MemoryImportScan::Malformed,
        Some((count, p)) => spec_scan_entries(s, p, count),
    }
}

/// Walks the section list from `pos` to the import section.
pub open spec fn spec_scan_sections(s: Seq<u8>, pos: int) -> MemoryImportScan
    decreases s.len() - pos,
{
    if pos == s.len() {
        MemoryImportScan::NoLimits
    } else if pos < 0 || pos > s.len() {
        MemoryImportScan::Malformed
    } else {
        let id = s[pos];
        match leb(s, pos + 1, 5) {
            None => MemoryImportScan::Malformed,
            Some((size, body)) => if body + size > s.len() || body <= pos {
                MemoryImportScan::Malformed
            } else if id == 2 {
                spec_scan_import_section(s, body)
            } else {
                spec_scan_sections(s, body + size)
            },
        }
    }
}

/// The whole header: magic, version, then the section walk.
pub open spec fn spec_scan_module(s: Seq<u8>) -> MemoryImportScan {
    if s.len() < 8 {
        MemoryImportScan::Malformed
    } else if s[0] == 0 && s[1] == 0x61 && s[2] == 0x73 && s[3] == 0x6d && s[4] == 1 && s[5] == 0
        && s[6] == 0 && s[7] == 0 {
        spec_scan_sections(s, 8)
    } else {
        MemoryImportScan::Malformed
    }
}

/// Walks the import entries, newest position forward; agrees exactly with
/// [`spec_scan_entries`].
fn scan_entries(s: &[u8], pos0: usize, count0: u64) -> (r: MemoryImportScan)
    requires
        pos0 <= s@.len(),
    ensures
        r == spec_scan_entries(s@, pos0 as int, count0 as nat),
    decreases count0,
{
    if count0 == 0 {
        return MemoryImportScan::NoLimits;
    }
    match leb_read(s, pos0, 5) {
        None => MemoryImportScan::Malformed,
        Some((mlen, p1)) => {
            if mlen > (s.len() - p1) as u64 {
                return MemoryImportScan::Malformed;
            }
            let q: usize = p1 + mlen as usize;
            match leb_read(s, q, 5) {
                None => MemoryImportScan::Malformed,
                Some((flen, p2)) => {
                    if flen >= (s.len() - p2) as u64 {
                        return MemoryImportScan::Malformed;
                    }
                    let kpos: usize = p2 + flen as usize;
                    let kind = s[kpos];
                    let p3: usize = kpos + 1;
                    if kind == 0 {
                        match leb_read(s, p3, 5) {
                            None => MemoryImportScan::Malformed,
                            Some((_idx, p4)) => scan_entries(s, p4, count0 - 1),
                        }
                    } else if kind == 1 {
                        if p3 >= s.len() {
                            return MemoryImportScan::Malformed;
                        }
                        match limits_read(s, p3 + 1) {
                            None => MemoryImportScan::Malformed,
                            Some((_min, _max, p4)) => scan_entries(s, p4, count0 - 1),
                        }
                    } else if kind == 2 {
                        match limits_read(s, p3) {
                            None => MemoryImportScan::Malformed,
                            Some((min, maxopt, _next)) => match maxopt {
                                None => MemoryImportScan::NoLimits,
                                Some(max) => {
                                    if min > u32::MAX as u64 || max > u32::MAX as u64 {
                                        MemoryImportScan::Malformed
                                    } else {
                                        MemoryImportScan::Limits(min as u32, max as u32)
                                    }
                                },
                            },
                        }
                    } else if kind == 3 {
                        if s.len() - p3 < 2 {
                            proof {
                                reveal_with_fuel(spec_scan_entries, 2);
                            }
                            if count0 == 1 {
                                return MemoryImportScan::NoLimits;
                            }
                            return MemoryImportScan::Malformed;
                        }
                        scan_entries(s, p3 + 2, count0 - 1)
                    } else {
                        MemoryImportScan::Malformed
                    }
                },
            }
        },
    }
}

/// Scans a module header for its declared memory import bounds; agrees
/// exactly with [`spec_scan_module`].
pub fn scan_imports(s: &[u8]) -> (r: MemoryImportScan)
    ensures
        r == spec_scan_module(s@),
{
    if s.len() < 8 {
        return MemoryImportScan::Malformed;
    }
    if !(s[0] == 0 && s[1] == 0x61 && s[2] == 0x73 && s[3] == 0x6d && s[4] == 1 && s[5] == 0
        && s[6] == 0 && s[7] == 0) {
        return MemoryImportScan::Malformed;
    }
    let mut pos: usize = 8;
    loop
        invariant
            8 <= pos <= s@.len(),
            s@.len() >= 8,
            spec_scan_sections(s@, 8) == spec_scan_sections(s@, pos as int),
            spec_scan_module(s@) == spec_scan_sections(s@, pos as int),
        decreases s@.len() - pos,
    {
        if pos == s.len() {
            return MemoryImportScan::NoLimits;
        }
        let id = s[pos];
        match leb_read(s, pos + 1, 5) {
            None => {
                return MemoryImportScan::Malformed;
            },
            Some((size, body)) => {
                if size > (s.len() - body) as u64 {
                    return MemoryImportScan::Malformed;
                }
                let next: usize = body + size as usize;
                if id == 2 {
                    match leb_read(s, body, 5) {
                        None => {
                            return MemoryImportScan::Malformed;
                        },
                        Some((count, p)) => {
                            return scan_entries(s, p, count);
                        },
                    }
                }
                pos = next;
            },
        }
    }
}

} // verus!
