//! Byte-pattern scanning over a captured memory region.
//!
//! A pattern names opcode bytes together with a mask whose '?'
//! positions are wildcards. The scan itself is plain byte logic and is
//! verified here; reading the host process's memory into a byte region,
//! and patching whatever is found, stays outside the library.

use vstd::prelude::*;

verus! {

/// The wildcard byte of a mask: ASCII '?'.
pub const MASK_WILDCARD: u8 = 0x3F;

/// A pattern that locates a code site inside a scanned byte region.
#[derive(Debug)]
pub struct Pattern {
    /// Name of the pattern, for reporting.
    pub name: &'static str,
    /// Address at which the scanned region starts in the host.
    pub start: usize,
    /// Address at which the scanned region ends in the host.
    pub end: usize,
    /// Mask over the opcodes: a '?' byte leaves the position free.
    pub mask: &'static [u8],
    /// The opcode bytes to match.
    pub op: &'static [u8],
}

/// A well-formed pattern has one mask byte per opcode byte.
pub open spec fn wf_pattern(mask: Seq<u8>, op: Seq<u8>) -> bool {
    mask.len() == op.len()
}

/// The pattern matches at `at`: the whole window lies inside the
/// region, and every non-wildcard position carries its opcode byte.
pub open spec fn spec_matches_at(region: Seq<u8>, at: int, mask: Seq<u8>, op: Seq<u8>) -> bool {
    &&& 0 <= at
    &&& at + mask.len() <= region.len()
    &&& forall|k: int|
        0 <= k < mask.len() && mask[k] != MASK_WILDCARD ==> region[at + k] == op[k]
}

/// Whether the pattern matches the region at position `at`.
pub fn compare_mask(region: &[u8], at: usize, mask: &[u8], op: &[u8]) -> (r: bool)
    requires
        wf_pattern(mask@, op@),
    ensures
        r == spec_matches_at(region@, at as int, mask@, op@),
{
    if mask.len() > region.len() || at > region.len() - mask.len() {
        return false;
    }
    let mut k: usize = 0;
    while k < mask.len()
        invariant
            k <= mask.len(),
            mask@.len() == op@.len(),
            at + mask@.len() <= region@.len(),
            region@.len() <= usize::MAX,
            forall|t: int|
                0 <= t < k && mask@[t] != MASK_WILDCARD ==> region@[at + t] == op@[t],
        decreases mask.len() - k,
    {
        if mask[k] != MASK_WILDCARD && region[at + k] != op[k] {
            return false;
        }
        k = k + 1;
    }
    true
}

/// Finds the first position where the pattern matches the region, or
/// nothing when no position matches.
pub fn find_pattern(region: &[u8], mask: &[u8], op: &[u8]) -> (r: Option<usize>)
    requires
        wf_pattern(mask@, op@),
    ensures
        r matches Some(i) ==> spec_matches_at(region@, i as int, mask@, op@)
            && (forall|j: int| 0 <= j < i ==> !spec_matches_at(region@, j, mask@, op@)),
        r is None ==> forall|j: int| !spec_matches_at(region@, j, mask@, op@),
{
    if mask.len() > region.len() {
        return None;
    }
    if mask.len() == 0 {
        return Some(0);
    }
    let last: usize = region.len() - mask.len();
    let mut at: usize = 0;
    while at <= last
        invariant
            at <= last + 1,
            last + mask@.len() == region@.len(),
            0 < mask@.len(),
            mask@.len() == op@.len(),
            region@.len() <= usize::MAX,
            forall|j: int| 0 <= j < at ==> !spec_matches_at(region@, j, mask@, op@),
        decreases last + 1 - at,
    {
        if compare_mask(region, at, mask, op) {
            return Some(at);
        }
        at = at + 1;
    }
    None
}

impl Pattern {
    /// Scans a captured region for this pattern's first match.
    pub fn find_in(&self, region: &[u8]) -> (r: Option<usize>)
        requires
            wf_pattern(self.mask@, self.op@),
        ensures
            r matches Some(i) ==> spec_matches_at(region@, i as int, self.mask@, self.op@)
                && (forall|j: int| 0 <= j < i ==> !spec_matches_at(region@, j, self.mask@,
                    self.op@)),
            r is None ==> forall|j: int| !spec_matches_at(region@, j, self.mask@, self.op@),
    {
        find_pattern(region, self.mask, self.op)
    }
}

} // verus!
