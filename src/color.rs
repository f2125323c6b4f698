//! Colours, as 8-bit red, green, blue and alpha channels.
use vstd::prelude::*;

verus! {

/// A colour with 8-bit channels; `alpha == 255` is opaque.
#[derive(Clone, Copy, Debug, PartialEq, Eq, Structural)]
pub struct Rgba {
    pub red: u8,
    pub green: u8,
    pub blue: u8,
    pub alpha: u8,
}

/// The default fill of the centre disk: an opaque green.
pub open spec fn center_default() -> Rgba {
    Rgba { red: 60, green: 255, blue: 0, alpha: 255 }
}

/// The default colour of the outer ring: an opaque cyan.
pub open spec fn radius_default() -> Rgba {
    Rgba { red: 0, green: 213, blue: 255, alpha: 255 }
}

/// The default colour of the progress arc: an opaque yellow.
pub open spec fn progress_default() -> Rgba {
    Rgba { red: 252, green: 244, blue: 0, alpha: 255 }
}

/// A colour that is set, or the default where it is not.
pub open spec fn or_default(c: Option<Rgba>, default: Rgba) -> Rgba {
    match c {
        Some(v) => v,
        None => default,
    }
}

impl Rgba {
    pub fn new(red: u8, green: u8, blue: u8, alpha: u8) -> (c: Rgba)
        ensures
            c == (Rgba { red, green, blue, alpha }),
    {
        Rgba { red, green, blue, alpha }
    }

    /// The default fill of the centre disk.
    pub fn center_fill() -> (c: Rgba)
        ensures
            c == center_default(),
    {
        Rgba { red: 60, green: 255, blue: 0, alpha: 255 }
    }

    /// The default colour of the outer ring.
    pub fn radius_fill() -> (c: Rgba)
        ensures
            c == radius_default(),
    {
        Rgba { red: 0, green: 213, blue: 255, alpha: 255 }
    }

    /// The default colour of the progress arc.
    pub fn progress_fill() -> (c: Rgba)
        ensures
            c == progress_default(),
    {
        Rgba { red: 252, green: 244, blue: 0, alpha: 255 }
    }
}

/// `c` where it is set, else `default`.
pub fn resolve(c: Option<Rgba>, default: Rgba) -> (r: Rgba)
    ensures
        r == or_default(c, default),
{
    match c {
        Some(v) => v,
        None => default,
    }
}

} // verus!
