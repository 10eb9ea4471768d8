use xous_core::loader::{app_uart_ifram_addr, uart_ifram_addr, FLG_SWAP_USED, PAGE_SIZE};

#[test]
fn serial_buffers_lie_at_the_end_of_the_interface_memory() {
    assert_eq!(PAGE_SIZE, 4096);
    assert_eq!(FLG_SWAP_USED, 0x8000_0000);
    assert_eq!(uart_ifram_addr(0x5000_0000, 0x2_0000), 0x5001_f000);
    assert_eq!(app_uart_ifram_addr(0x5000_0000, 0x2_0000), 0x5001_d000);
    // only the end of the memory counts
    assert_eq!(uart_ifram_addr(0x5000_0000, 0), 0x4fff_f000);
    assert_eq!(app_uart_ifram_addr(0x3000, 0), 0);
}
