//! AetherV: the logic of a small RISC-V (Sv39) microkernel and of its user-mode
//! servers, written as verified state machines and pure functions.  The parts
//! that touch hardware (CSR writes, MMIO, `ecall`, raw memory copies) are left
//! to the caller, which performs the actions these functions decide.
use vstd::prelude::*;

pub mod paging;
pub mod task;
pub mod trap;
pub mod ipc;
pub mod nameserver;
pub mod block_server;
pub mod vfs_server;
pub mod input_server;
pub mod drivers;
pub mod wm;
pub mod clients;
pub mod shell;
pub mod fdt;
pub mod net_server;
pub mod gpu_server;
pub mod text;
