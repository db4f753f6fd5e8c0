//! Register-level drivers for a 16450/8250-class UART and a VGA text-mode
//! framebuffer, with a shared fault model.
pub mod error;
pub mod serial;
pub mod sim_uart;
pub mod vgatext;
