use vstd::prelude::*;

verus! {

/// An 8-bit-per-channel RGB color value.
#[derive(Debug, Default, Copy, Clone, PartialEq, Eq, Structural)]
pub struct Rgb {
    pub red: u8,
    pub green: u8,
    pub blue: u8,
}

impl Rgb {
    /// Pure red.
    pub fn red() -> (c: Rgb)
        ensures
            c == (Rgb { red: 255u8, green: 0u8, blue: 0u8 }),
    {
        Rgb { red: 255, green: 0, blue: 0 }
    }

    /// Pure blue.
    pub fn blue() -> (c: Rgb)
        ensures
            c == (Rgb { red: 0u8, green: 0u8, blue: 255u8 }),
    {
        Rgb { red: 0, green: 0, blue: 255 }
    }

    /// Pure green.
    pub fn green() -> (c: Rgb)
        ensures
            c == (Rgb { red: 0u8, green: 255u8, blue: 0u8 }),
    {
        Rgb { red: 0, green: 255, blue: 0 }
    }

    /// Black.
    pub fn black() -> (c: Rgb)
        ensures
            c == (Rgb { red: 0u8, green: 0u8, blue: 0u8 }),
    {
        Rgb { red: 0, green: 0, blue: 0 }
    }

    /// White.
    pub fn white() -> (c: Rgb)
        ensures
            c == (Rgb { red: 255u8, green: 255u8, blue: 255u8 }),
    {
        Rgb { red: 255, green: 255, blue: 255 }
    }
}

} // verus!
