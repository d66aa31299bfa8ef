//! Image dimensionality: classifying an extent by how many of its dimensions
//! are in use, as the graphics layer does before it creates an image.

use vstd::prelude::*;

verus! {

/// A three-dimensional extent in texels.
#[derive(Clone, Copy, Debug, PartialEq, Eq, Structural)]
pub struct Extent3d {
    pub width: u32,
    pub height: u32,
    pub depth: u32,
}

/// The dimensionality class of an image.
#[derive(Clone, Copy, Debug, PartialEq, Eq, Structural)]
pub enum ImageType {
    OneDim,
    TwoDim,
    ThreeDim,
}

/// How many dimensions an extent spans: width and height each count when at
/// least one, depth only when more than one.
pub open spec fn spec_dimensions(extent: Extent3d) -> int {
    (if extent.width >= 1 {
        1int
    } else {
        0int
    }) + (if extent.height >= 1 {
        1int
    } else {
        0int
    }) + (if extent.depth > 1 {
        1int
    } else {
        0int
    })
}

/// The image type an extent calls for, if its dimension count names one.
pub open spec fn spec_image_type(extent: Extent3d) -> Option<ImageType> {
    if spec_dimensions(extent) == 1 {
        Some(ImageType::OneDim)
    } else if spec_dimensions(extent) == 2 {
        Some(ImageType::TwoDim)
    } else if spec_dimensions(extent) == 3 {
        Some(ImageType::ThreeDim)
    } else {
        None
    }
}

/// Classifies an extent by how many of its dimensions are in use; an extent
/// spanning no dimension is refused.
pub fn determine_image_type(extent: Extent3d) -> (image_type: Option<ImageType>)
    ensures
        image_type == spec_image_type(extent),
{
    let mut dimensions: u32 = 0;
    if extent.width >= 1 {
        dimensions = dimensions + 1;
    }
    if extent.height >= 1 {
        dimensions = dimensions + 1;
    }
    if extent.depth > 1 {
        dimensions = dimensions + 1;
    }
    if dimensions == 1 {
        Some(ImageType::OneDim)
    } else if dimensions == 2 {
        Some(ImageType::TwoDim)
    } else if dimensions == 3 {
        Some(ImageType::ThreeDim)
    } else {
        None
    }
}

} // verus!
