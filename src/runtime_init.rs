//! Runtime bootstrap: zeroing the uninitialized-data segment.
use vstd::prelude::*;

verus! {

/// The half-open address range `[start, end)`.
#[derive(Clone, Copy, Debug, PartialEq, Eq, Structural)]
pub struct AddressRange {
    pub start: usize,
    pub end: usize,
}

pub open spec fn in_range(addr: int, r: AddressRange) -> bool {
    r.start <= addr < r.end
}

/// `r` lies inside the memory `len` bytes long that starts at address `base`.
pub open spec fn range_within(r: AddressRange, base: usize, len: nat) -> bool {
    base <= r.start <= r.end && r.end - base <= len
}

/// `after` is `before` with every byte whose address lies in `r` set to zero,
/// the memory starting at address `base`.
pub open spec fn zeroed_in(before: Seq<u8>, after: Seq<u8>, base: usize, r: AddressRange) -> bool {
    &&& after.len() == before.len()
    &&& forall|i: int|
        0 <= i < before.len() ==> #[trigger] after[i] == if in_range(base + i, r) {
            0u8
        } else {
            before[i]
        }
}

/// The range of the uninitialized-data segment, from the addresses that mark
/// its start and its end.
pub fn bss_range(bss_start: usize, bss_end: usize) -> (r: AddressRange)
    ensures
        r == (AddressRange { start: bss_start, end: bss_end }),
{
    AddressRange { start: bss_start, end: bss_end }
}

/// Writes zero to every byte of `mem` whose address lies in `r`, `mem`
/// starting at address `base`, one store per byte; nothing else changes.
pub fn zero_volatile(mem: &mut [u8], base: usize, r: AddressRange)
    requires
        range_within(r, base, old(mem)@.len()),
    ensures
        zeroed_in(old(mem)@, final(mem)@, base, r),
{
    let lo: usize = r.start - base;
    let hi: usize = r.end - base;
    let mut i: usize = lo;
    while i < hi
        invariant
            lo <= i <= hi,
            lo == r.start - base,
            hi == r.end - base,
            hi <= mem@.len(),
            mem@.len() == old(mem)@.len(),
            forall|k: int|
                0 <= k < mem@.len() ==> #[trigger] mem@[k] == if lo <= k < i {
                    0u8
                } else {
                    old(mem)@[k]
                },
        decreases hi - i,
    {
        mem[i] = 0;
        i = i + 1;
    }
}

/// Prepares static memory: zeroes the uninitialized-data segment `bss` of the
/// memory `mem` that starts at address `base`. Kernel initialization follows.
pub fn runtime_init(mem: &mut [u8], base: usize, bss: AddressRange)
    requires
        range_within(bss, base, old(mem)@.len()),
    ensures
        zeroed_in(old(mem)@, final(mem)@, base, bss),
{
    zero_volatile(mem, base, bss);
}

} // verus!
