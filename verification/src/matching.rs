//! The signature resolver: computes a single numeric address for a symbol
//! from its byte-signature pattern, a chain of signed dereference offsets, and
//! an optional instruction-pointer-relative adjustment.

use crate::error::BaoError;
use crate::pattern::{compile_pattern, find_pattern, first_match_from, spec_compile};
use vstd::arithmetic::div_mod::{lemma_add_mod_noop, lemma_mod_sub_multiples_vanish, lemma_small_mod};
use vstd::prelude::*;

verus! {

/// One symbol specification: a name, a signature pattern, an optional
/// absolute-address override, a chain of signed dereference offsets, a
/// trailing adjustment, and the addressing-mode flags.
#[derive(Debug)]
pub struct BaoSymbol {
    pub name: String,
    pub pattern: String,
    pub start_rva: usize,
    pub extra: isize,
    pub offsets: Vec<isize>,
    pub relative: bool,
    pub rip_relative: bool,
    pub rip_offset: isize,
}

/// The two recoverable ways a resolution can fail: a malformed pattern or an
/// address computation that left the valid range, and a pattern that does not
/// occur in the buffer.
#[derive(Clone, Copy, PartialEq, Eq, Structural, Debug)]
pub enum FindFail {
    Bad,
    NotFound,
}

/// Adding a signed offset to an address, when the sum stays a valid address.
pub open spec fn spec_add_signed(first: int, second: int) -> Option<int> {
    if 0 <= first + second <= usize::MAX {
        Some(first + second)
    } else {
        None
    }
}

/// Adds a signed offset to an unsigned address with overflow detection.
pub fn add_signed(first: usize, second: isize) -> (r: Option<usize>)
    ensures
        match spec_add_signed(first as int, second as int) {
            Some(v) => r matches Some(x) && x == v,
            None => r is None,
        },
{
    first.checked_add_signed(second)
}

/// The 4-byte little-endian value stored in `data` at position `i`.
pub open spec fn le32_at(data: Seq<u8>, i: int) -> int {
    data[i] + data[i + 1] * 0x100 + data[i + 2] * 0x10000 + data[i + 3] * 0x1000000
}

/// Reads a 4-byte little-endian value, or `None` when the window would leave
/// the buffer.
fn peek_le32(data: &[u8], offset: usize) -> (r: Option<u32>)
    ensures
        offset + 4 <= data@.len() ==> (r matches Some(v) && v == le32_at(data@, offset as int)),
        offset + 4 > data@.len() ==> r is None,
{
    let dlen = data.len();
    if dlen < 4 || offset > dlen - 4 {
        return None;
    }
    let b0 = data[offset] as u32;
    let b1 = data[offset + 1] as u32;
    let b2 = data[offset + 2] as u32;
    let b3 = data[offset + 3] as u32;
    Some(b0 + b1 * 0x100 + b2 * 0x10000 + b3 * 0x1000000)
}

/// One dereference step: move by the signed offset, then read the 4-byte
/// little-endian value stored there.
pub open spec fn chain_step(addr: int, off: int, data: Seq<u8>) -> Option<int> {
    match spec_add_signed(addr, off) {
        None => None,
        Some(a) => if a + 4 <= data.len() {
            Some(le32_at(data, a))
        } else {
            None
        },
    }
}

/// The address reached after following the whole dereference chain.
pub open spec fn spec_chain(addr: int, offs: Seq<isize>, data: Seq<u8>) -> Option<int>
    decreases offs.len(),
{
    if offs.len() == 0 {
        Some(addr)
    } else {
        match chain_step(addr, offs[0] as int, data) {
            None => None,
            Some(a) => spec_chain(a, offs.skip(1), data),
        }
    }
}

/// A displacement added to an address in 32-bit wrapping arithmetic: the
/// address is truncated to 32 bits first, as a relative displacement is
/// interpreted against its own 32-bit encoded position.
pub open spec fn rip_adjust(a: int, d: int) -> int {
    let t = (a % 0x100000000) + d;
    if t < 0x100000000 {
        t
    } else {
        t - 0x100000000
    }
}

/// Instruction-pointer-relative adjustment is addition modulo 2^32: for an
/// address `a` holding displacement `d`, the adjusted address is
/// `(a + d) mod 2^32`.
pub proof fn lemma_rip_adjust(a: int, d: int)
    requires
        0 <= a,
        0 <= d < 0x100000000,
    ensures
        rip_adjust(a, d) == (a + d) % 0x100000000,
{
    let m = 0x100000000int;
    let r = a % m;
    lemma_small_mod(d as nat, m as nat);
    lemma_add_mod_noop(a, d, m);
    if r + d < m {
        lemma_small_mod((r + d) as nat, m as nat);
    } else {
        lemma_mod_sub_multiples_vanish(r + d, m);
        lemma_small_mod((r + d - m) as nat, m as nat);
    }
}

/// The resolution steps that follow a successful pattern match at `start`:
/// the dereference chain, the trailing adjustment, the optional
/// instruction-pointer-relative step, and the optional rebasing.
pub open spec fn spec_resolve_from(start: int, s: BaoSymbol, data: Seq<u8>, base: int) -> Result<
    (int, bool),
    FindFail,
> {
    match spec_chain(start, s.offsets@, data) {
        None => Err(FindFail::Bad),
        Some(a0) => match spec_add_signed(a0, s.extra as int) {
            None => Err(FindFail::Bad),
            Some(a1) => {
                let after_rip = if s.rip_relative {
                    if a1 + 4 <= data.len() {
                        spec_add_signed(rip_adjust(a1, le32_at(data, a1)), s.rip_offset as int)
                    } else {
                        None
                    }
                } else {
                    Some(a1)
                };
                match after_rip {
                    None => Err(FindFail::Bad),
                    Some(a2) => if s.relative {
                        if a2 >= base {
                            Ok((a2 - base, true))
                        } else {
                            Err(FindFail::Bad)
                        }
                    } else {
                        Ok((a2, s.offsets@.len() > 0))
                    },
                }
            },
        },
    }
}

/// The complete resolution of one symbol specification: the returned flag
/// tells whether the address is a virtual address (rather than a raw file
/// offset), which decides the range table the section mapper consults.
pub open spec fn spec_find(s: BaoSymbol, data: Seq<u8>, base: int) -> Result<(int, bool), FindFail> {
    if s.start_rva != 0 {
        match spec_add_signed(s.start_rva as int, base) {
            Some(a) => Ok((a, true)),
            None => Err(FindFail::Bad),
        }
    } else {
        match spec_compile(s.pattern@) {
            None => Err(FindFail::Bad),
            Some(toks) => match first_match_from(toks, data, 0) {
                None => Err(FindFail::NotFound),
                Some(start) => spec_resolve_from(start, s, data, base),
            },
        }
    }
}

impl BaoSymbol {
    /// Resolves this specification against the raw binary image, returning
    /// the computed address and whether it is a virtual address.
    ///
    /// An absolute-address override short-circuits the search.  A malformed
    /// pattern or an out-of-range address computation fails with
    /// `BadPattern`; a pattern absent from the image fails with
    /// `PatternNotFound`.
    pub fn find(&self, data: &[u8], imagebase: usize) -> (r: Result<(usize, bool), BaoError>)
        ensures
            match spec_find(*self, data@, imagebase as int) {
                Ok((a, va)) => r matches Ok(p) && p.0 == a && p.1 == va,
                Err(FindFail::Bad) => r matches Err(BaoError::BadPattern { pattern })
                    && pattern@ == self.pattern@,
                Err(FindFail::NotFound) => r matches Err(BaoError::PatternNotFound { name })
                    && name@ == self.name@,
            },
    {
        if self.start_rva != 0 {
            return match self.start_rva.checked_add(imagebase) {
                Some(a) => Ok((a, true)),
                None => Err(BaoError::BadPattern { pattern: self.pattern.clone() }),
            };
        }
        let toks = match compile_pattern(self.pattern.as_str()) {
            Ok(t) => t,
            Err(e) => {
                return Err(e);
            },
        };
        let start = match find_pattern(&toks, data) {
            Some(i) => i,
            None => {
                return Err(BaoError::PatternNotFound { name: self.name.clone() });
            },
        };
        assert(spec_find(*self, data@, imagebase as int) == spec_resolve_from(
            start as int,
            *self,
            data@,
            imagebase as int,
        ));
        let ghost offs = self.offsets@;
        let mut result: usize = start;
        let mut va = false;
        let olen = self.offsets.len();
        let mut idx: usize = 0;
        assert(offs.skip(0) =~= offs);
        while idx < olen
            invariant
                olen == offs.len(),
                offs == self.offsets@,
                idx <= olen,
                spec_find(*self, data@, imagebase as int) == spec_resolve_from(
                    start as int,
                    *self,
                    data@,
                    imagebase as int,
                ),
                spec_chain(start as int, offs, data@) == spec_chain(
                    result as int,
                    offs.skip(idx as int),
                    data@,
                ),
                va == (idx > 0),
            decreases olen - idx,
        {
            let ghost rem = offs.skip(idx as int);
            proof {
                assert(rem.len() > 0);
                assert(rem[0] == offs[idx as int]);
                assert(rem.skip(1) =~= offs.skip(idx as int + 1));
            }
            let off = self.offsets[idx];
            let stepped = match add_signed(result, off) {
                Some(v) => v,
                None => {
                    assert(chain_step(result as int, off as int, data@) is None);
                    assert(spec_chain(result as int, rem, data@) is None);
                    return Err(BaoError::BadPattern { pattern: self.pattern.clone() });
                },
            };
            let v = match peek_le32(data, stepped) {
                Some(v) => v,
                None => {
                    assert(chain_step(result as int, off as int, data@) is None);
                    assert(spec_chain(result as int, rem, data@) is None);
                    return Err(BaoError::BadPattern { pattern: self.pattern.clone() });
                },
            };
            proof {
                assert(chain_step(result as int, off as int, data@) == Some(v as int));
            }
            result = v as usize;
            va = true;
            idx += 1;
        }
        proof {
            assert(offs.skip(olen as int) =~= Seq::<isize>::empty());
            assert(spec_chain(start as int, offs, data@) == Some(result as int));
        }
        result = match add_signed(result, self.extra) {
            Some(v) => v,
            None => {
                return Err(BaoError::BadPattern { pattern: self.pattern.clone() });
            },
        };
        if self.rip_relative {
            let d = match peek_le32(data, result) {
                Some(v) => v,
                None => {
                    return Err(BaoError::BadPattern { pattern: self.pattern.clone() });
                },
            };
            let r64: u64 = result as u64;
            let r32: u32 = (r64 % 0x100000000) as u32;
            let w = r32.wrapping_add(d);
            proof {
                assert(r32 == result as int % 0x100000000);
                assert(w == rip_adjust(result as int, d as int));
            }
            result = match add_signed(w as usize, self.rip_offset) {
                Some(v) => v,
                None => {
                    return Err(BaoError::BadPattern { pattern: self.pattern.clone() });
                },
            };
        }
        if self.relative {
            if result < imagebase {
                return Err(BaoError::BadPattern { pattern: self.pattern.clone() });
            }
            result = result - imagebase;
            va = true;
        }
        Ok((result, va))
    }
}

/// The symbol table of one run: the function and the global-variable
/// specifications, in configuration order.
pub struct BaoConfiguration {
    pub functions: Vec<BaoSymbol>,
    pub globals: Vec<BaoSymbol>,
}

impl Default for BaoConfiguration {
    /// The empty configuration: no functions and no globals.
    fn default() -> (r: BaoConfiguration)
        ensures
            r.functions@.len() == 0,
            r.globals@.len() == 0,
    {
        BaoConfiguration { functions: Vec::new(), globals: Vec::new() }
    }
}

} // verus!
