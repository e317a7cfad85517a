//! Unix-domain socket peers: address encoding, socket building by system calls,
//! half-closable duplex halves and the per-scheme plans that combine them.

use vstd::prelude::*;

pub mod addr;
pub mod builder;
pub mod duplex;
pub mod specifier;

verus! {

} // verus!
