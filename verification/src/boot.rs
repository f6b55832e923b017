//! Zero-filling of memory at boot.

use vstd::prelude::*;

verus! {

/// The bytes of `before` with every byte in `[start, end)` replaced by zero.
pub open spec fn zeroed_between(before: Seq<u8>, start: int, end: int) -> Seq<u8> {
    Seq::new(before.len(), |k: int| if start <= k < end { 0u8 } else { before[k] })
}

/// Writes zero to every byte of `memory` from `start_addr` up to, but not
/// including, `end_addr`. Both are positions within `memory`. Bytes outside
/// the range keep their value.
pub fn clear_bss_by_addr(memory: &mut [u8], start_addr: usize, end_addr: usize)
    requires
        start_addr <= end_addr <= old(memory)@.len(),
    ensures
        final(memory)@ == zeroed_between(old(memory)@, start_addr as int, end_addr as int),
{
    let ghost before = memory@;
    let mut addr: usize = start_addr;
    while addr < end_addr
        invariant
            start_addr <= addr <= end_addr <= before.len(),
            memory@ == zeroed_between(before, start_addr as int, addr as int),
        decreases end_addr - addr,
    {
        memory[addr] = 0u8;
        addr = addr + 1;
    }
}

/// Zeroes the whole uninitialised-data section handed in as `bss`.
pub fn clear_bss(bss: &mut [u8])
    ensures
        final(bss)@.len() == old(bss)@.len(),
        forall|k: int| 0 <= k < final(bss)@.len() ==> final(bss)@[k] == 0u8,
{
    let end_addr: usize = bss.len();
    clear_bss_by_addr(bss, 0, end_addr);
}

} // verus!
