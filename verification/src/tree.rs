//! The tree: a toggleable prop under which the presents are laid.

use crate::interaction::State;
use crate::prop::spec_entry_sprite;
use crate::prop::spec_interactable_id;
use crate::prop::Prop;
use crate::prop::PropKind;
use crate::santa::AddPresentsEvent;
use crate::sprite::Sprite;
use crate::sprite::SpriteImage;
use vstd::prelude::*;

verus! {

/// What lies under the tree: the picture of the presents, once they have
/// been laid down.
#[derive(Clone, Copy, Debug, PartialEq, Eq)]
pub struct Presents {
    pub sprite: Option<Sprite>,
}

/// The tree and the presents under it.
#[derive(Clone, Debug)]
pub struct Tree {
    pub prop: Prop,
    pub presents: Presents,
}

impl Presents {
    /// No presents yet.
    pub fn new() -> (presents: Presents)
        ensures
            presents.sprite.is_none(),
    {
        Presents { sprite: None }
    }

    /// Whether the presents lie under the tree.
    pub fn has_presents(&self) -> (present: bool)
        ensures
            present == self.sprite.is_some(),
    {
        self.sprite.is_some()
    }

    /// Lays the presents under the tree, unless they lie there already.
    /// Tells whether they were laid down now.
    pub fn handle_presents_add(&mut self, event: &AddPresentsEvent) -> (added: bool)
        ensures
            added == old(self).sprite.is_none(),
            final(self).sprite == if added {
                Some(Sprite { image: SpriteImage::Presents, texture_atlas: None, flip_x: false })
            } else {
                old(self).sprite
            },
    {
        if self.sprite.is_none() {
            self.sprite = Some(Sprite::still(SpriteImage::Presents));
            true
        } else {
            false
        }
    }
}

impl Tree {
    /// The tree as the scene starts: off, and without presents.
    pub fn new() -> (tree: Tree)
        ensures
            tree.prop.kind == PropKind::Tree,
            tree.prop.id@ == spec_interactable_id(PropKind::Tree),
            tree.prop.state == State::Off,
            tree.prop.sprite == spec_entry_sprite(PropKind::Tree, State::Off, false),
            tree.prop.consistent(),
            tree.presents.sprite.is_none(),
    {
        Tree { prop: Prop::new(PropKind::Tree), presents: Presents::new() }
    }
}

} // verus!
