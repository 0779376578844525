//! The compression level that an encoder works at.

use vstd::prelude::*;

verus! {

/// How hard the DEFLATE engine tries: 0 stores, 9 compresses best.
#[derive(Clone, Copy, Debug, PartialEq, Eq, Structural)]
pub struct Compression(pub u32);

impl Compression {
    /// The level with the given number.
    pub fn new(level: u32) -> (c: Compression)
        ensures
            c.0 == level,
    {
        Compression(level)
    }

    /// No compression: the data is stored.
    pub fn none() -> (c: Compression)
        ensures
            c.0 == 0,
    {
        Compression(0)
    }

    /// The level that favours speed.
    pub fn fast() -> (c: Compression)
        ensures
            c.0 == 1,
    {
        Compression(1)
    }

    /// The level that favours size.
    pub fn best() -> (c: Compression)
        ensures
            c.0 == 9,
    {
        Compression(9)
    }

    /// The number of the level.
    pub fn level(&self) -> (l: u32)
        ensures
            l == self.0,
    {
        self.0
    }

    /// The extra-flags byte that a header written at this level carries.
    pub fn extra_flags(&self) -> (x: u8)
        ensures
            x == self.xfl(),
    {
        if self.0 >= 9 {
            2
        } else if self.0 <= 1 {
            4
        } else {
            0
        }
    }

    /// The level as the engine takes it: levels above 255 count as 255.
    pub open spec fn engine_level(self) -> u8 {
        if self.0 > 255 {
            255u8
        } else {
            self.0 as u8
        }
    }

    /// The extra-flags byte that a header written at this level carries: 2 for
    /// the best level and above, 4 for the fastest and below, else 0.
    pub open spec fn xfl(self) -> u8 {
        if self.0 >= 9 {
            2
        } else if self.0 <= 1 {
            4
        } else {
            0
        }
    }
}

impl Default for Compression {
    /// The level that balances speed and size: 6.
    fn default() -> (c: Compression)
        ensures
            c.0 == 6,
    {
        Compression(6)
    }
}

} // verus!
