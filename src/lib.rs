//! Building blocks of a multi-band audio equalizer: the taxonomy of filter
//! curves and the bookkeeping that decides which bands a sample runs through.

pub mod curve;

pub use curve::{Curve, InvalidCurveIndex};
pub mod bands;

pub use bands::{Band, Bands, NUM_BANDS};
