//! The decision logic of a small set of operating-system components: the
//! low-level I/O server with its alarms and event subscriptions, the I2C
//! server, the kernel's debug server, the DMA self-test, the posting of text
//! views, and the memory map of the loader.
//!
//! Nothing here touches hardware or the operating system. A function takes what
//! has happened, updates its state, and gives back what is to be done about it.
pub mod callbacks;
pub mod dma;
pub mod gdb;
pub mod i2c;
pub mod lfsr;
pub mod llio;
pub mod llio_laws;
pub mod llio_requests;
pub mod loader;
pub mod message;
pub mod rtc;
pub mod textview;
