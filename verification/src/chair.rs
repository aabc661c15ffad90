//! The chair: the one seat of the scene.

use crate::interaction::Interactable;
use vstd::prelude::*;

verus! {

/// The id under which the chair is interacted with.
pub open spec fn spec_interactable_id() -> Seq<char> {
    "chair"@
}

/// The id under which the chair is interacted with.
pub fn interactable_id() -> (id: String)
    ensures
        id@ == spec_interactable_id(),
{
    "chair".to_owned()
}

/// The interactable that registers the chair for proximity tracking: 17 by
/// 25 pixels, in thousandths of a pixel.
pub fn interactable() -> (registered: Interactable)
    ensures
        registered.id@ == spec_interactable_id(),
        registered.width == 17_000,
        registered.height == 25_000,
{
    Interactable { width: 17_000, height: 25_000, id: interactable_id() }
}

} // verus!
