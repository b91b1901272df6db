use vstd::prelude::*;

verus! {

/// The record handed to the presentation layer for a successfully
/// decoded image: the original path, the pixel dimensions, and the
/// horizontal resolution in dots per inch.
#[derive(Debug, Clone, PartialEq)]
pub struct Image {
    pub path: String,
    pub dpi: u32,
    pub width: u32,
    pub height: u32,
}

} // verus!
