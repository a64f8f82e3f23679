//! Virtual-memory core of an object-based kernel: contexts that bind address-space slots to
//! memory objects, the page-fault decision procedure, and the kernel heap's growth bookkeeping.
//!
//! The library decides; it never touches page tables, threads or physical memory itself.
//! Every effect on those collaborators is handed back to the caller as a plain value.

use vstd::prelude::*;

pub mod layout;
pub mod slot;
pub mod binding;
pub mod slot_table;
pub mod context;
pub mod fault;
pub mod heap;
pub mod boot;

verus! {

} // verus!
