//! Verified transcoding of a pointer-addressed skinned-mesh model, unpacked
//! from a compressed container, into a PMX document.
//!
//! - `container`, `codec`: the archive directory and its decompression codec.
//! - `names`: the permuted bone-name table.
//! - `model`: the model blob, its sections and the batch tables that map
//!   section-local bone indices to skeleton indices.
//! - `convert`: assembly of the PMX scene from a parsed model.
//! - `pmx`, `pmx_read`: the PMX data model, its encoder, its decoder and the
//!   passes that need no floating-point arithmetic.
//! - `bytes`, `wire`: checked field reads and appends.
//!
//! Single-precision values are carried as IEEE 754 bit patterns throughout.
use vstd::prelude::*;

pub mod bytes;
pub mod codec;
pub mod names;
pub mod wire;
pub mod pmx;
pub mod pmx_read;
pub mod model;
pub mod convert;
pub mod container;

verus! {

} // verus!
