//! The section mapper and the symbol finder.
//!
//! The section mapper classifies a resolved address against the binary
//! container's section table, producing a section-relative offset and a
//! 1-based section index.  The symbol finder runs the resolver and the mapper
//! over a list of symbol specifications, demoting per-symbol failures to
//! warnings so that one stale signature cannot block the rest of the run.

use crate::error::{BaoError, ErrV};
use crate::matching::{spec_find, BaoSymbol, FindFail};
use vstd::prelude::*;
use vstd::string::StringExecFns;

verus! {

/// One section of the binary container: a virtual-address range and a
/// raw/file-offset range.  Ranges of distinct sections do not overlap.
#[derive(Clone, Copy, PartialEq, Eq, Structural, Debug)]
pub struct BaoSection {
    pub virtual_address: u32,
    pub virtual_size: u32,
    pub pointer_to_raw_data: u32,
    pub size_of_raw_data: u32,
}

/// The parsed shape of the binary container: its image base, its bit-width
/// flag, and its ordered section table.
pub struct BaoPE {
    pub image_base: usize,
    pub is_64: bool,
    pub sections: Vec<BaoSection>,
}

/// One located symbol: the unit handed to the debug-info writer.
pub struct SearchResult {
    pub offset: u32,
    pub name: String,
    pub index: u16,
}

/// The mathematical image of a [`SearchResult`].
pub open spec fn sr_view(r: SearchResult) -> (Seq<char>, int, int) {
    (r.name@, r.offset as int, r.index as int)
}

/// The lower bound of the range of `s` selected by the addressing mode:
/// virtual addresses are classified against the virtual range, raw addresses
/// against the file range.
pub open spec fn sec_lo(s: BaoSection, va: bool) -> int {
    if va {
        s.virtual_address as int
    } else {
        s.pointer_to_raw_data as int
    }
}

/// The size of the range of `s` selected by the addressing mode.
pub open spec fn sec_size(s: BaoSection, va: bool) -> int {
    if va {
        s.virtual_size as int
    } else {
        s.size_of_raw_data as int
    }
}

/// Whether address `a` lies in the selected range of `s`: at or past the
/// lower bound and strictly below the upper bound.
pub open spec fn sec_contains(s: BaoSection, va: bool, a: int) -> bool {
    sec_lo(s, va) <= a < sec_lo(s, va) + sec_size(s, va)
}

/// The position of the first section at or after `i` whose selected range
/// contains `a`.
pub open spec fn spec_section_from(secs: Seq<BaoSection>, va: bool, a: int, i: int) -> Option<int>
    decreases secs.len() - i,
{
    if i < 0 || i >= secs.len() {
        None
    } else if sec_contains(secs[i], va, a) {
        Some(i)
    } else {
        spec_section_from(secs, va, a, i + 1)
    }
}

/// `spec_section_from` returns the first containing section, and `None`
/// exactly when no section at or after `i` contains the address.
pub proof fn lemma_section_from(secs: Seq<BaoSection>, va: bool, a: int, i: int)
    requires
        0 <= i,
    ensures
        match spec_section_from(secs, va, a, i) {
            Some(m) => i <= m < secs.len() && sec_contains(secs[m], va, a) && forall|k: int|
                i <= k < m ==> !sec_contains(secs[k], va, a),
            None => forall|k: int| i <= k < secs.len() ==> !sec_contains(secs[k], va, a),
        },
    decreases secs.len() - i,
{
    if i >= secs.len() {
    } else if sec_contains(secs[i], va, a) {
    } else {
        lemma_section_from(secs, va, a, i + 1);
    }
}

/// An address exactly at a non-empty section's lower bound is contained in
/// that section (so it maps to relative offset 0 there); an address exactly
/// at the section's upper bound is not contained in it.
pub proof fn lemma_section_boundary(s: BaoSection, va: bool)
    ensures
        sec_size(s, va) > 0 ==> sec_contains(s, va, sec_lo(s, va)),
        !sec_contains(s, va, sec_lo(s, va) + sec_size(s, va)),
{
}

/// When section `k` contains the address and no earlier section from `i` on
/// does, the mapper selects exactly section `k`.
pub proof fn lemma_section_from_found(secs: Seq<BaoSection>, va: bool, a: int, i: int, k: int)
    requires
        0 <= i <= k < secs.len(),
        sec_contains(secs[k], va, a),
        forall|j: int| i <= j < k ==> !sec_contains(#[trigger] secs[j], va, a),
    ensures
        spec_section_from(secs, va, a, i) == Some(k),
    decreases k - i,
{
    if i < k {
        lemma_section_from_found(secs, va, a, i + 1, k);
    }
}

/// The lower bound of a non-empty section that no earlier section covers maps
/// to exactly that section; together with the mapper's contract this means
/// relative offset 0 at 1-based index `k + 1`.
pub proof fn lemma_section_boundary_mapping(secs: Seq<BaoSection>, va: bool, k: int)
    requires
        0 <= k < secs.len(),
        sec_size(secs[k], va) > 0,
        forall|j: int| 0 <= j < k ==> !sec_contains(#[trigger] secs[j], va, sec_lo(secs[k], va)),
    ensures
        spec_section_from(secs, va, sec_lo(secs[k], va), 0) == Some(k),
{
    lemma_section_from_found(secs, va, sec_lo(secs[k], va), 0, k);
}

/// The warning text for an address that falls in no declared section.
pub open spec fn unmapped_msg(name: Seq<char>, pattern: Seq<char>) -> Seq<char> {
    name + " ("@ + pattern
        + ") could not be translated. Please check relative and rip_relative!"@
}

/// What becomes of one symbol specification: a located symbol, or a warning.
pub enum SymOutcome {
    Found(Seq<char>, int, int),
    Warn(ErrV),
}

/// The outcome of resolving and mapping one symbol specification.
pub open spec fn spec_outcome(
    secs: Seq<BaoSection>,
    base: int,
    s: BaoSymbol,
    data: Seq<u8>,
) -> SymOutcome {
    match spec_find(s, data, base) {
        Err(FindFail::Bad) => SymOutcome::Warn(ErrV::BadPattern { pattern: s.pattern@ }),
        Err(FindFail::NotFound) => SymOutcome::Warn(ErrV::PatternNotFound { name: s.name@ }),
        Ok((a, va)) => match spec_section_from(secs, va, a, 0) {
            None => SymOutcome::Warn(
                ErrV::BadPattern { pattern: unmapped_msg(s.name@, s.pattern@) },
            ),
            Some(k) => SymOutcome::Found(s.name@, a - sec_lo(secs[k], va), k + 1),
        },
    }
}

/// The located symbols among the specifications at or after `i`, in
/// specification order: name, section-relative offset, 1-based section index.
pub open spec fn spec_results_from(
    secs: Seq<BaoSection>,
    base: int,
    syms: Seq<BaoSymbol>,
    data: Seq<u8>,
    i: int,
) -> Seq<(Seq<char>, int, int)>
    decreases syms.len() - i,
{
    if i < 0 || i >= syms.len() {
        Seq::empty()
    } else {
        match spec_outcome(secs, base, syms[i], data) {
            SymOutcome::Found(n, o, x) => seq![(n, o, x)] + spec_results_from(
                secs,
                base,
                syms,
                data,
                i + 1,
            ),
            SymOutcome::Warn(_) => spec_results_from(secs, base, syms, data, i + 1),
        }
    }
}

/// The warnings produced by the specifications at or after `i`, in
/// specification order.
pub open spec fn spec_warnings_from(
    secs: Seq<BaoSection>,
    base: int,
    syms: Seq<BaoSymbol>,
    data: Seq<u8>,
    i: int,
) -> Seq<ErrV>
    decreases syms.len() - i,
{
    if i < 0 || i >= syms.len() {
        Seq::empty()
    } else {
        match spec_outcome(secs, base, syms[i], data) {
            SymOutcome::Found(n, o, x) => spec_warnings_from(secs, base, syms, data, i + 1),
            SymOutcome::Warn(w) => seq![w] + spec_warnings_from(secs, base, syms, data, i + 1),
        }
    }
}

impl BaoPE {
    /// Maps an address onto the first section whose selected range contains
    /// it, returning the section-relative offset and the 1-based section
    /// index, or `None` when the address falls in no declared range.
    pub fn get_section_data(&self, offset: usize, va: bool) -> (r: Option<(u32, u16)>)
        requires
            self.sections@.len() <= 0xFFFF,
        ensures
            match spec_section_from(self.sections@, va, offset as int, 0) {
                Some(k) => (r matches Some(p) && p.0 == offset - sec_lo(self.sections@[k], va)
                    && p.1 == k + 1),
                None => r is None,
            },
            r matches Some(p) ==> sec_contains(self.sections@[p.1 - 1], va, offset as int)
                && forall|j: int| 0 <= j < p.1 - 1 ==> !sec_contains(
                self.sections@[j],
                va,
                offset as int,
            ),
            r is None ==> forall|j: int| 0 <= j < self.sections@.len() ==> !sec_contains(
                self.sections@[j],
                va,
                offset as int,
            ),
    {
        let n = self.sections.len();
        let mut i: usize = 0;
        while i < n
            invariant
                n == self.sections@.len(),
                n <= 0xFFFF,
                i <= n,
                spec_section_from(self.sections@, va, offset as int, 0) == spec_section_from(
                    self.sections@,
                    va,
                    offset as int,
                    i as int,
                ),
            decreases n - i,
        {
            let s = self.sections[i];
            let lo: u64 = if va {
                s.virtual_address as u64
            } else {
                s.pointer_to_raw_data as u64
            };
            let size: u64 = if va {
                s.virtual_size as u64
            } else {
                s.size_of_raw_data as u64
            };
            let o64 = offset as u64;
            if o64 >= lo && o64 < lo + size {
                assert(sec_contains(self.sections@[i as int], va, offset as int));
                let rel = (o64 - lo) as u32;
                let index = (i + 1) as u16;
                proof {
                    lemma_section_from(self.sections@, va, offset as int, 0);
                }
                return Some((rel, index));
            }
            assert(!sec_contains(self.sections@[i as int], va, offset as int));
            i += 1;
        }
        proof {
            lemma_section_from(self.sections@, va, offset as int, 0);
        }
        None
    }

    /// Resolves and maps every specification in order.  Failures — a bad
    /// pattern, a pattern not found, or an unmapped address — become
    /// warnings carrying the symbol's name (and, for unmapped addresses, the
    /// pattern too) and do not stop the run; successes accumulate in
    /// specification order.
    pub fn find_symbols(
        &self,
        symbols: Vec<BaoSymbol>,
        data: &[u8],
        warnings: &mut Vec<BaoError>,
    ) -> (r: Vec<SearchResult>)
        requires
            self.sections@.len() <= 0xFFFF,
        ensures
            r@.map_values(|x: SearchResult| sr_view(x)) == spec_results_from(
                self.sections@,
                self.image_base as int,
                symbols@,
                data@,
                0,
            ),
            final(warnings)@.map_values(|e: BaoError| e@) == old(warnings)@.map_values(
                |e: BaoError| e@,
            ) + spec_warnings_from(self.sections@, self.image_base as int, symbols@, data@, 0),
    {
        let ghost secs = self.sections@;
        let ghost base = self.image_base as int;
        let ghost w0 = warnings@.map_values(|e: BaoError| e@);
        let mut found: Vec<SearchResult> = Vec::new();
        let n = symbols.len();
        let mut i: usize = 0;
        while i < n
            invariant
                n == symbols@.len(),
                i <= n,
                secs == self.sections@,
                base == self.image_base as int,
                secs.len() <= 0xFFFF,
                w0 == old(warnings)@.map_values(|e: BaoError| e@),
                found@.map_values(|x: SearchResult| sr_view(x)) + spec_results_from(
                    secs,
                    base,
                    symbols@,
                    data@,
                    i as int,
                ) == spec_results_from(secs, base, symbols@, data@, 0),
                warnings@.map_values(|e: BaoError| e@) + spec_warnings_from(
                    secs,
                    base,
                    symbols@,
                    data@,
                    i as int,
                ) == w0 + spec_warnings_from(secs, base, symbols@, data@, 0),
            decreases n - i,
        {
            let ghost fv = found@.map_values(|x: SearchResult| sr_view(x));
            let ghost wv = warnings@.map_values(|e: BaoError| e@);
            let symbol = &symbols[i];
            match symbol.find(data, self.image_base) {
                Err(e) => {
                    proof {
                        assert(spec_outcome(secs, base, symbols@[i as int], data@)
                            == SymOutcome::Warn(e@));
                    }
                    warnings.push(e);
                    proof {
                        assert(warnings@.map_values(|e: BaoError| e@) =~= wv + seq![e@]);
                    }
                },
                Ok((offset, va)) => {
                    match self.get_section_data(offset, va) {
                        None => {
                            let mut msg = symbol.name.clone();
                            msg.append(" (");
                            msg.append(symbol.pattern.as_str());
                            msg.append(
                                ") could not be translated. Please check relative and rip_relative!",
                            );
                            assert(msg@ == unmapped_msg(
                                symbols@[i as int].name@,
                                symbols@[i as int].pattern@,
                            ));
                            let w = BaoError::BadPattern { pattern: msg };
                            proof {
                                assert(spec_outcome(secs, base, symbols@[i as int], data@)
                                    == SymOutcome::Warn(w@));
                            }
                            warnings.push(w);
                            proof {
                                assert(warnings@.map_values(|e: BaoError| e@) =~= wv + seq![w@]);
                            }
                        },
                        Some((off, index)) => {
                            let sr = SearchResult { offset: off, name: symbol.name.clone(), index };
                            proof {
                                assert(spec_outcome(secs, base, symbols@[i as int], data@)
                                    == SymOutcome::Found(sr.name@, sr.offset as int, sr.index as int));
                            }
                            found.push(sr);
                            proof {
                                assert(found@.map_values(|x: SearchResult| sr_view(x)) =~= fv
                                    + seq![sr_view(found@[found@.len() - 1])]);
                            }
                        },
                    }
                },
            }
            i += 1;
            proof {
                assert(fv + spec_results_from(secs, base, symbols@, data@, i - 1) == spec_results_from(
                    secs,
                    base,
                    symbols@,
                    data@,
                    0,
                ));
            }
        }
        proof {
            assert(spec_results_from(secs, base, symbols@, data@, n as int) =~= Seq::<(
                Seq<char>,
                int,
                int,
            )>::empty());
            assert(spec_warnings_from(secs, base, symbols@, data@, n as int)
                =~= Seq::<ErrV>::empty());
            assert(found@.map_values(|x: SearchResult| sr_view(x)) + Seq::<(
                Seq<char>,
                int,
                int,
            )>::empty() =~= found@.map_values(|x: SearchResult| sr_view(x)));
            assert(warnings@.map_values(|e: BaoError| e@) + Seq::<ErrV>::empty()
                =~= warnings@.map_values(|e: BaoError| e@));
        }
        found
    }
}

} // verus!
