//! Constants of the loader, and where the serial ports keep their DMA buffers.
use vstd::prelude::*;

verus! {

/// Size of a page of memory.
pub const PAGE_SIZE: usize = 4096;

/// Flag of a page that is in use by swap.
pub const FLG_SWAP_USED: u32 = 0x8000_0000;

/// Address of the buffer of the boot serial port: the last page of the
/// interface memory, which has `mem_len` bytes from `mem` on.
pub fn uart_ifram_addr(mem: usize, mem_len: usize) -> (addr: usize)
    requires
        mem + mem_len <= usize::MAX,
        mem + mem_len >= PAGE_SIZE,
    ensures
        addr + PAGE_SIZE == mem + mem_len,
        addr == mem + mem_len - 0x1000,
{
    mem + mem_len - PAGE_SIZE
}

/// Address of the buffer of the application serial port: the last but two page
/// of the interface memory.
pub fn app_uart_ifram_addr(mem: usize, mem_len: usize) -> (addr: usize)
    requires
        mem + mem_len <= usize::MAX,
        mem + mem_len >= 3 * PAGE_SIZE,
    ensures
        addr + 3 * PAGE_SIZE == mem + mem_len,
        addr == mem + mem_len - 0x3000,
{
    mem + mem_len - 3 * PAGE_SIZE
}

/// A page has 4096 bytes, and the flag of swap is the topmost bit of a word.
pub proof fn law_page_and_flag()
    ensures
        PAGE_SIZE == 4096,
        FLG_SWAP_USED > u32::MAX / 2,
        FLG_SWAP_USED + FLG_SWAP_USED == u32::MAX + 1,
{
}

} // verus!
