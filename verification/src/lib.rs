//! Fixed-point camera and deferred-rendering core.
//!
//! Scalars are signed 64-bit fixed-point numbers with one million units to
//! one: the raw value `1_000_000` stands for `1.0`. All geometry (vectors,
//! projection matrices, camera state, G-buffer bookkeeping) is exact integer
//! arithmetic over that representation, so every operation carries a proved
//! contract. The display surface, texture allocation and draw submission are
//! outside collaborators and live beyond this crate.

use vstd::prelude::*;

pub mod camera;
pub mod fixed;
pub mod gbuffer;
pub mod math;
pub mod matrix;
pub mod render_object;
pub mod trig;

verus! {

} // verus!
