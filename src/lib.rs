//! Decoding of a length-prefixed binary frame stream into a fixed-size LED
//! pixel buffer, with frame-rate bookkeeping and framed status messages.
use vstd::prelude::*;

pub mod codec;
pub mod controller;
pub mod pixels;
pub mod rate;
pub mod stats;

verus! {

} // verus!
