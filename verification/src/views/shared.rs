//! What the screens have in common.

use crate::phi::gfx::Sprite;
use vstd::prelude::*;

verus! {

/// The scenery: three layers that scroll at different speeds, two behind
/// the game and one before it.
#[derive(Clone, Copy, Debug, PartialEq, Eq, Structural)]
pub struct BgSet {
    pub back: Sprite,
    pub middle: Sprite,
    pub front: Sprite,
}

} // verus!
