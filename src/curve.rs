//! The closed set of filter shapes an equalizer band can take.

use vstd::prelude::*;

verus! {

/// The qualitative shape of a band's frequency response.
#[derive(Copy, Clone, Debug, PartialEq, Eq, Structural)]
pub enum Curve {
    Lowpass,
    Highpass,
    Bandpass,
    Notch,
    Peak,
    Lowshelf,
    Highshelf,
}

/// An integer that does not encode any curve.
#[derive(Copy, Clone, Debug, PartialEq, Eq, Structural)]
pub struct InvalidCurveIndex {
    pub index: i32,
}

/// The curve that an integer encodes, if any.
///
/// Indices 5 and 6 decode to `Lowpass` and `Highpass` again; the shelving
/// curves have no integer code.
pub open spec fn curve_of_index(i: int) -> Option<Curve> {
    if i == 0 {
        Some(Curve::Lowpass)
    } else if i == 1 {
        Some(Curve::Highpass)
    } else if i == 2 {
        Some(Curve::Bandpass)
    } else if i == 3 {
        Some(Curve::Notch)
    } else if i == 4 {
        Some(Curve::Peak)
    } else if i == 5 {
        Some(Curve::Lowpass)
    } else if i == 6 {
        Some(Curve::Highpass)
    } else {
        None
    }
}

/// Whether the gain parameter shapes the response of this curve.
pub open spec fn curve_uses_gain(c: Curve) -> bool {
    c == Curve::Peak || c == Curve::Lowshelf || c == Curve::Highshelf
}

impl Curve {
    /// Decodes a curve from its integer code, rejecting codes outside `0..=6`.
    pub fn from_index(i: i32) -> (r: Result<Curve, InvalidCurveIndex>)
        ensures
            r is Ok <==> curve_of_index(i as int) is Some,
            r is Ok ==> Some(r->Ok_0) == curve_of_index(i as int),
            r is Err ==> r->Err_0 == (InvalidCurveIndex { index: i }),
    {
        match i {
            0 => Ok(Curve::Lowpass),
            1 => Ok(Curve::Highpass),
            2 => Ok(Curve::Bandpass),
            3 => Ok(Curve::Notch),
            4 => Ok(Curve::Peak),
            5 => Ok(Curve::Lowpass),
            6 => Ok(Curve::Highpass),
            _ => Err(InvalidCurveIndex { index: i }),
        }
    }

    /// Whether the gain parameter has any effect on a band of this curve.
    pub fn uses_gain(&self) -> (r: bool)
        ensures
            r == curve_uses_gain(*self),
    {
        match self {
            Curve::Peak | Curve::Lowshelf | Curve::Highshelf => true,
            _ => false,
        }
    }
}

} // verus!
