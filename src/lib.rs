//! A verified model of the core of a RISC-V M-mode security monitor: memory layout, the page
//! allocator over confidential memory, PMP isolation, the virtual CSR bank, the confidential and
//! non-confidential flows, and the SBI handlers that move state between them.

pub mod error;
pub mod page_size;
pub mod memory_layout;
pub mod page_allocator;
pub mod arch;
pub mod mtvec;
pub mod pmp;
pub mod hart;
pub mod shared_page;
pub mod interrupt_controller;
pub mod control_data;
pub mod decode;
pub mod handlers;
pub mod flow;
pub mod handle;
pub mod virt_csr;
pub mod virt;
pub mod policy;
pub mod monitor_switch;
