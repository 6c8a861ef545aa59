//! The calibration model: immutable camera intrinsics, and the derived
//! parameter set that every detection call consumes.
//!
//! Intrinsics are pixel quantities that arrive as binary64 numbers; they
//! are carried here as their bit patterns, and validity — finite and
//! strictly positive — is decided directly on the bits: a finite number
//! has an exponent field below the all-ones pattern, and a positive one
//! has a clear sign bit and a non-zero magnitude.

use crate::error::PipelineError;
use vstd::prelude::*;

verus! {

/// True when `bits` is the pattern of a finite binary64 number: the
/// exponent field is not all ones (all ones encodes infinities and NaNs).
pub open spec fn f64_bits_finite(bits: u64) -> bool {
    (bits >> 52) & 0x7ff != 0x7ff
}

/// True when `bits` encodes a number strictly greater than zero: the sign
/// bit is clear and the magnitude bits are not all zero.
pub open spec fn f64_bits_positive(bits: u64) -> bool {
    bits >> 63 == 0 && bits & 0x7fffffffffffffff != 0
}

/// A calibration quantity is meaningful only when it is finite and
/// strictly positive.
pub open spec fn valid_intrinsic(bits: u64) -> bool {
    f64_bits_finite(bits) && f64_bits_positive(bits)
}

/// Decides `valid_intrinsic` on a raw bit pattern.
pub fn check_intrinsic(bits: u64) -> (ok: bool)
    ensures
        ok == valid_intrinsic(bits),
{
    (bits >> 52) & 0x7ff != 0x7ff && bits >> 63 == 0 && bits & 0x7fffffffffffffff != 0
}

/// Camera intrinsics: focal lengths and principal point, each the bit
/// pattern of a positive finite binary64 pixel quantity. Created once per
/// run and read-only afterwards.
#[derive(Debug)]
pub struct Calibration {
    pub focal_x_pixels: u64,
    pub focal_y_pixels: u64,
    pub principal_point_x_pixels: u64,
    pub principal_point_y_pixels: u64,
}

/// The read-only parameter set handed to every pose estimation call:
/// the intrinsics plus the physical tag edge length, in the unit the
/// caller wants translations expressed in.
#[derive(Debug)]
pub struct TagEstimationParameters {
    pub tagsize: u64,
    pub fx: u64,
    pub fy: u64,
    pub cx: u64,
    pub cy: u64,
}

impl Calibration {
    /// All four intrinsics are positive finite numbers.
    pub open spec fn wf(&self) -> bool {
        &&& valid_intrinsic(self.focal_x_pixels)
        &&& valid_intrinsic(self.focal_y_pixels)
        &&& valid_intrinsic(self.principal_point_x_pixels)
        &&& valid_intrinsic(self.principal_point_y_pixels)
    }

    /// Builds the calibration model from the four raw fields of a
    /// parameter document; `None` stands for a field the document lacks.
    /// Succeeds exactly when every field is present, finite and positive;
    /// anything else is a malformed calibration.
    pub fn load(
        focal_x: Option<u64>,
        focal_y: Option<u64>,
        principal_x: Option<u64>,
        principal_y: Option<u64>,
    ) -> (r: Result<Calibration, PipelineError>)
        ensures
            r is Ok <==> {
                &&& focal_x is Some && valid_intrinsic(focal_x->0)
                &&& focal_y is Some && valid_intrinsic(focal_y->0)
                &&& principal_x is Some && valid_intrinsic(principal_x->0)
                &&& principal_y is Some && valid_intrinsic(principal_y->0)
            },
            r is Ok ==> r->Ok_0 == (Calibration {
                focal_x_pixels: focal_x->0,
                focal_y_pixels: focal_y->0,
                principal_point_x_pixels: principal_x->0,
                principal_point_y_pixels: principal_y->0,
            }),
            r is Ok ==> r->Ok_0.wf(),
            r is Err ==> r->Err_0 == PipelineError::MalformedCalibration,
    {
        match (focal_x, focal_y, principal_x, principal_y) {
            (Some(fx), Some(fy), Some(cx), Some(cy)) => {
                if check_intrinsic(fx) && check_intrinsic(fy) && check_intrinsic(cx)
                    && check_intrinsic(cy) {
                    Ok(Calibration {
                        focal_x_pixels: fx,
                        focal_y_pixels: fy,
                        principal_point_x_pixels: cx,
                        principal_point_y_pixels: cy,
                    })
                } else {
                    Err(PipelineError::MalformedCalibration)
                }
            },
            _ => Err(PipelineError::MalformedCalibration),
        }
    }

    /// Derives the tag-estimation parameters for a physical tag edge
    /// length, given as a binary64 bit pattern. Succeeds exactly when the
    /// length is a positive finite number; anything else is an invalid
    /// tag size.
    pub fn to_params(&self, tagsize: u64) -> (r: Result<TagEstimationParameters, PipelineError>)
        requires
            self.wf(),
        ensures
            r is Ok <==> valid_intrinsic(tagsize),
            r is Ok ==> r->Ok_0 == (TagEstimationParameters {
                tagsize,
                fx: self.focal_x_pixels,
                fy: self.focal_y_pixels,
                cx: self.principal_point_x_pixels,
                cy: self.principal_point_y_pixels,
            }),
            r is Err ==> r->Err_0 == PipelineError::InvalidTagSize,
    {
        if check_intrinsic(tagsize) {
            Ok(TagEstimationParameters {
                tagsize,
                fx: self.focal_x_pixels,
                fy: self.focal_y_pixels,
                cx: self.principal_point_x_pixels,
                cy: self.principal_point_y_pixels,
            })
        } else {
            Err(PipelineError::InvalidTagSize)
        }
    }
}

} // verus!
