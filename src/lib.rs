//! Readback of compute results from a device buffer into a simulation.
//!
//! A render tick copies a device buffer into a host-mappable staging
//! buffer, asks for it to be mapped, waits on a completion bridge, decodes
//! the mapped bytes into words and hands them to the simulation through a
//! message channel. The decisions of that cycle, the decoding and the
//! resolution of shader bindings are verified here; the device and the
//! engine stay with the caller.
use vstd::prelude::*;

pub mod words;
pub mod cycle;
pub mod channel;
pub mod bindings;
pub mod dispatch;
pub mod shader;

verus! {

} // verus!
