//! Hardware bring-up layer of a single-core bare-metal ARM64 kernel: the PL011
//! UART register protocol, its driver state, the driver-initialization
//! protocol, boot-core gating and the zeroing of the uninitialized-data segment.
//!
//! Everything here is plain computation over values. The actual memory-mapped
//! accesses and processor instructions are performed by the caller, which hands
//! the library the register values it read and performs the actions it returns.

pub mod console;
pub mod cpu;
pub mod driver;
pub mod registers;
pub mod runtime_init;
pub mod synchronization;
pub mod uart;
pub mod bsp;
pub mod panic_wait;
