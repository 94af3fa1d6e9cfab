//! A hypervisor's shadow-register engine, verified.
//!
//! A confidential-computing hardware extension lets the host observe and
//! mutate only a subset of a guest control register's bits. This crate keeps
//! the register's logical value and the hardware's enforced value coherent:
//! the catalog says which bits of each register kind the guest owns, and the
//! virtual-register engine splits every write and read along that mask.
//! Supporting pieces of the same hypervisor stack live alongside it: a
//! circular log buffer, a bump allocator for the boot environment, the
//! page-locking arithmetic for DMA buffers, and a UEFI-style boolean.

pub mod boolean;
pub mod bump_alloc;
pub mod catalog;
pub mod lockmem;
pub mod log_buffer;
pub mod virtual_register;
pub mod vmcs_store;
