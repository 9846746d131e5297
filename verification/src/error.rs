//! The error protocol of the metric.
//!
//! A score computation either completes or fails with exactly one of these
//! variants; every rejection is decided by the checks below before any pixel
//! work begins.

use vstd::prelude::*;

verus! {

/// Why a score computation was refused.
#[derive(Clone, Copy, Debug, PartialEq, Eq, Structural)]
pub enum Ssimulacra2Error {
    /// The input could not be converted to linear RGB.
    LinearRgbConversionFailed,
    /// The image is smaller than the 8x8 minimum at scale 0.
    InvalidImageSize,
    /// The distorted image does not have the reference's dimensions.
    NonMatchingImageDimensions,
    /// A blur backend failed to produce a plane.
    GaussianBlurError,
}

impl Ssimulacra2Error {
    /// A short human-readable description of the variant.
    pub fn message(&self) -> (r: &'static str)
        ensures
            r@ == self.spec_message(),
    {
        match self {
            Ssimulacra2Error::LinearRgbConversionFailed => "could not convert input to linear RGB",
            Ssimulacra2Error::InvalidImageSize => "image is smaller than 8x8",
            Ssimulacra2Error::NonMatchingImageDimensions => "image dimensions do not match",
            Ssimulacra2Error::GaussianBlurError => "gaussian blur failed",
        }
    }

    /// The description `message` returns for each variant.
    pub open spec fn spec_message(self) -> Seq<char> {
        match self {
            Ssimulacra2Error::LinearRgbConversionFailed => "could not convert input to linear RGB"@,
            Ssimulacra2Error::InvalidImageSize => "image is smaller than 8x8"@,
            Ssimulacra2Error::NonMatchingImageDimensions => "image dimensions do not match"@,
            Ssimulacra2Error::GaussianBlurError => "gaussian blur failed"@,
        }
    }
}

/// Accepts exactly the pixel buffers whose length is `width * height`.
///
/// A mismatched buffer is what makes the conversion to linear RGB fail.
pub fn check_data_len(len: usize, width: usize, height: usize) -> (r: Result<(), Ssimulacra2Error>)
    ensures
        r is Ok <==> len == width * height,
        r is Err ==> r == Err::<(), Ssimulacra2Error>(Ssimulacra2Error::LinearRgbConversionFailed),
{
    match width.checked_mul(height) {
        Some(area) if len == area => Ok(()),
        _ => Err(Ssimulacra2Error::LinearRgbConversionFailed),
    }
}

/// Accepts exactly the images that are at least 8x8, the minimum the
/// multiscale pyramid supports at scale 0.
pub fn check_image_size(width: usize, height: usize) -> (r: Result<(), Ssimulacra2Error>)
    ensures
        r is Ok <==> width >= 8 && height >= 8,
        r is Err ==> r == Err::<(), Ssimulacra2Error>(Ssimulacra2Error::InvalidImageSize),
{
    if width >= 8 && height >= 8 {
        Ok(())
    } else {
        Err(Ssimulacra2Error::InvalidImageSize)
    }
}

/// Accepts exactly the pairs whose dimensions agree; the metric never
/// compares differently sized images.
pub fn check_matching_dimensions(
    ref_width: usize,
    ref_height: usize,
    dis_width: usize,
    dis_height: usize,
) -> (r: Result<(), Ssimulacra2Error>)
    ensures
        r is Ok <==> ref_width == dis_width && ref_height == dis_height,
        r is Err ==> r == Err::<(), Ssimulacra2Error>(
            Ssimulacra2Error::NonMatchingImageDimensions,
        ),
{
    if ref_width == dis_width && ref_height == dis_height {
        Ok(())
    } else {
        Err(Ssimulacra2Error::NonMatchingImageDimensions)
    }
}

/// Admits a reference/distorted pair into the pipeline: the dimensions must
/// agree and the shared size must be at least 8x8.  A mismatch is reported
/// before an undersized image, as the comparison is meaningless either way.
pub fn validate_pair(
    ref_width: usize,
    ref_height: usize,
    dis_width: usize,
    dis_height: usize,
) -> (r: Result<(), Ssimulacra2Error>)
    ensures
        r is Ok <==> ref_width == dis_width && ref_height == dis_height && ref_width >= 8
            && ref_height >= 8,
        !(ref_width == dis_width && ref_height == dis_height) ==> r == Err::<
            (),
            Ssimulacra2Error,
        >(Ssimulacra2Error::NonMatchingImageDimensions),
        ref_width == dis_width && ref_height == dis_height && !(ref_width >= 8 && ref_height >= 8)
            ==> r == Err::<(), Ssimulacra2Error>(Ssimulacra2Error::InvalidImageSize),
{
    match check_matching_dimensions(ref_width, ref_height, dis_width, dis_height) {
        Ok(()) => check_image_size(ref_width, ref_height),
        Err(e) => Err(e),
    }
}

} // verus!
