//! The listings that a run queries.

use vstd::prelude::*;

verus! {

/// Which creator listings to query.
#[derive(Debug, Clone, Copy, PartialEq, Eq, Structural)]
pub enum SaveType {
    All,
    Following,
    Supporting,
}

impl SaveType {
    /// Whether the listing of followed creators is queried.
    pub open spec fn spec_accept_following(&self) -> bool {
        *self is All || *self is Following
    }

    /// Whether the listing of supported creators is queried.
    pub open spec fn spec_accept_supporting(&self) -> bool {
        *self is All || *self is Supporting
    }

    /// Tests whether the listing of followed creators is queried.
    pub fn accept_following(&self) -> (accept: bool)
        ensures
            accept == self.spec_accept_following(),
    {
        match self {
            SaveType::All => true,
            SaveType::Following => true,
            SaveType::Supporting => false,
        }
    }

    /// Tests whether the listing of supported creators is queried.
    pub fn accept_supporting(&self) -> (accept: bool)
        ensures
            accept == self.spec_accept_supporting(),
    {
        match self {
            SaveType::All => true,
            SaveType::Following => false,
            SaveType::Supporting => true,
        }
    }
}

impl Default for SaveType {
    fn default() -> (save: SaveType)
        ensures
            save == SaveType::Supporting,
    {
        SaveType::Supporting
    }
}

} // verus!
