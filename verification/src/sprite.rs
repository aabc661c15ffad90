//! What a prop shows and plays: the picture, the frame of its sprite sheet
//! and the sounds. Pictures, sheet layouts and sounds are named, not held:
//! the scene maps each name to the asset that it loaded.

use vstd::prelude::*;

verus! {

/// The pictures of the scene.
#[derive(Clone, Copy, Debug, PartialEq, Eq, Structural)]
pub enum SpriteImage {
    /// The picture of a sprite that shows nothing.
    Blank,
    FireplaceOff,
    FireplaceRunning,
    StereoOff,
    StereoRunning,
    TreeOff,
    TreeOn,
    Presents,
    SwitchOff,
    SwitchOn,
    Chair,
    ManStanding,
    ManWalking,
    ManSitting,
    SantaAnimation,
}

/// The sprite sheet layouts of the scene.
#[derive(Clone, Copy, Debug, PartialEq, Eq, Structural)]
pub enum AtlasLayout {
    FireplaceRunning,
    StereoRunning,
    TreeOn,
    ManStanding,
    ManWalking,
    ManSitting,
    SantaAnimation,
}

/// The frame of a sprite sheet that is on display.
#[derive(Clone, Copy, Debug, PartialEq, Eq, Structural)]
pub struct TextureAtlas {
    pub layout: AtlasLayout,
    pub index: usize,
}

/// What an entity displays.
#[derive(Clone, Copy, Debug, PartialEq, Eq)]
pub struct Sprite {
    pub image: SpriteImage,
    pub texture_atlas: Option<TextureAtlas>,
    pub flip_x: bool,
}

impl Sprite {
    /// A still picture: no sprite sheet, not mirrored.
    pub fn still(image: SpriteImage) -> (sprite: Sprite)
        ensures
            sprite == (Sprite { image, texture_atlas: None, flip_x: false }),
    {
        Sprite { image, texture_atlas: None, flip_x: false }
    }

    /// The first frame of a sprite sheet, not mirrored.
    pub fn sheet(image: SpriteImage, layout: AtlasLayout) -> (sprite: Sprite)
        ensures
            sprite == (Sprite {
                image,
                texture_atlas: Some(TextureAtlas { layout, index: 0 }),
                flip_x: false,
            }),
    {
        Sprite { image, texture_atlas: Some(TextureAtlas { layout, index: 0 }), flip_x: false }
    }

    /// The frame on display, if the sprite shows a sheet.
    pub open spec fn frame(self) -> Option<usize> {
        match self.texture_atlas {
            Some(atlas) => Some(atlas.index),
            None => None,
        }
    }

    /// The same sprite showing frame `index` of its sheet; a still picture
    /// stays as it is.
    pub open spec fn with_frame(self, index: usize) -> Sprite {
        match self.texture_atlas {
            Some(atlas) => Sprite {
                texture_atlas: Some(TextureAtlas { layout: atlas.layout, index }),
                ..self
            },
            None => self,
        }
    }
}

/// What happens to the looping sound of a prop.
#[derive(Clone, Copy, Debug, PartialEq, Eq, Structural)]
pub enum AudioAction {
    Play,
    Pause,
}

/// The sounds that are played once.
#[derive(Clone, Copy, Debug, PartialEq, Eq, Structural)]
pub enum Sound {
    SwitchOn,
    SwitchOff,
    /// A left footstep, by its number among the left footsteps.
    LeftStep(usize),
    /// A right footstep, by its number among the right footsteps.
    RightStep(usize),
}

} // verus!
