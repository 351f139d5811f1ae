//! WebGPU.

use vstd::prelude::*;

verus! {

/// Defined in the "ImageBitmap and animations" standard.
///
/// https://html.spec.whatwg.org/multipage/imagebitmap-and-animations.html#imagebitmap
pub struct ImageBitmap {}

} // verus!
