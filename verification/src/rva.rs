//! Relative virtual addresses that differ between the two supported game builds.

use vstd::prelude::*;

verus! {

/// The game builds whose address tables are known.
#[derive(Clone, Copy, Debug, PartialEq, Eq, Structural)]
pub enum GameVersion {
    /// The worldwide release.
    Ww,
    /// The Japanese release.
    Jp,
}

/// One address, relative to the image base, for each supported build.
#[derive(Clone, Copy, Debug)]
pub struct Rva {
    ww: u32,
    jp: u32,
}

impl Rva {
    /// The offset in the worldwide build.
    pub closed spec fn ww(self) -> u32 {
        self.ww
    }

    /// The offset in the Japanese build.
    pub closed spec fn jp(self) -> u32 {
        self.jp
    }

    /// The offset that applies to `version`.
    pub open spec fn spec_resolve(self, version: GameVersion) -> u32 {
        match version {
            GameVersion::Ww => self.ww(),
            GameVersion::Jp => self.jp(),
        }
    }

    /// Pairs the offsets of one location in both builds.
    pub fn new(ww: u32, jp: u32) -> (rva: Rva)
        ensures
            rva.ww() == ww,
            rva.jp() == jp,
    {
        Rva { ww, jp }
    }

    /// Picks the offset for the running build.
    pub fn resolve(&self, version: GameVersion) -> (offset: u32)
        ensures
            offset == self.spec_resolve(version),
    {
        match version {
            GameVersion::Ww => self.ww,
            GameVersion::Jp => self.jp,
        }
    }
}

} // verus!
