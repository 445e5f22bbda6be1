//! Owning handles for values and buffers that live in an accelerator's memory
//! regions (device, page-locked host, unified), with copy operations between
//! them and explicitly resolved work bound to a stream.
//!
//! The accelerator runtime's allocation primitives are represented by
//! [`backend::Backend`], an owner table of allocations that every handle is
//! created from and released to.

pub mod backend;
pub mod device_box;
pub mod device_buffer;
pub mod elements;
pub mod error;
pub mod futures;
pub mod laws;
pub mod locked_box;
pub mod pointer;
pub mod stream;
pub mod transfer;
pub mod unified_box;
pub mod unified_buffer;
