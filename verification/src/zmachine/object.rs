//! An object in a game, which usually represents a location or artifact.

use vstd::prelude::*;

verus! {

/// A marker for the in-game notion of an object: a node of the object tree,
/// a collection of flag-like attributes and numbered properties. The decoded
/// per-object records live in the object database module.
pub struct Object {}

} // verus!
