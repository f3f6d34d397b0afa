//! Sprite textures of 2D actors, indexed by actor id, action id and facing
//! angle.
//!
//! A list of declarations is settled first (`declaration`): a declaration
//! that leaves out its actor or action takes the last one given before it,
//! and one that leaves out its angle faces the front. The settled entries are
//! then folded into the index (`textures`), where an action's `Any` angle
//! serves as the default image and layout of its other angles (`view`).
use vstd::prelude::*;

pub mod angle;
pub mod declaration;
pub mod textures;
pub mod view;

verus! {

} // verus!
