//! The state machine of the toggleable props: fireplace, stereo, tree and
//! the two light switches. Each prop answers the interaction events that
//! carry its id by changing state, and a change of state always comes with
//! the whole presentation of the new state: picture, looping sound and
//! lights.

use crate::animation::advance_looping;
use crate::animation::advance_random;
use crate::animation::can_advance;
use crate::animation::has_other_frame;
use crate::animation::spec_advance_looping;
use crate::animation::AnimationConfig;
use crate::flickering_light::initial_color;
use crate::flickering_light::is_drawn_for;
use crate::flickering_light::random_flicker_parameters;
use crate::flickering_light::spec_palette;
use crate::flickering_light::Color;
use crate::flickering_light::Light;
use crate::flickering_light::LightKind;
use crate::interaction::Interactable;
use crate::interaction::InteractionEvent;
use crate::interaction::State;
use crate::sprite::AtlasLayout;
use crate::sprite::AudioAction;
use crate::sprite::Sound;
use crate::sprite::Sprite;
use crate::sprite::SpriteImage;
use crate::sprite::TextureAtlas;
use vstd::prelude::*;

verus! {

/// The families of toggleable props.
#[derive(Clone, Copy, Debug, PartialEq, Eq, Structural)]
pub enum PropKind {
    Fireplace,
    Stereo,
    Tree,
    /// The hidden switch of the attic lamp.
    AtticLight,
    /// The light switch of the house: the attic lamp and the string of
    /// lights along the roof.
    LightSwitch,
}

/// How many lights hang on the string along the roof.
pub const XMAS_LIGHTS: usize = 40;

/// A light of a prop and the parameter set it flickers with.
#[derive(Clone, Debug)]
pub struct PropLight {
    pub kind: LightKind,
    pub light: Light,
}

/// A toggleable prop: its identity, its state and all that presents it.
#[derive(Clone, Debug)]
pub struct Prop {
    pub kind: PropKind,
    /// The id of the interaction events that this prop answers.
    pub id: String,
    pub state: State,
    pub sprite: Sprite,
    /// The frame range and timer of an animated prop.
    pub config: Option<AnimationConfig>,
    /// Whether the looping sound of the prop is playing.
    pub playing: bool,
    pub lights: Vec<PropLight>,
}

/// First frame, last frame and speed of a frame range, if there is one.
pub open spec fn config_range(config: Option<AnimationConfig>) -> Option<(usize, usize, u8)> {
    match config {
        Some(range) => Some((range.first_index, range.last_index, range.fps)),
        None => None,
    }
}

/// The frame range of each animated family, with the timer of its first
/// frame at its start: five frames at the family's speed. The switches
/// have none.
pub open spec fn spec_animation_config(kind: PropKind) -> Option<AnimationConfig> {
    match spec_fps(kind) {
        Some(fps) => Some(AnimationConfig::spec_new(0, LAST_FRAME, fps)),
        None => None,
    }
}

/// What a change of state asks of the sound system.
#[derive(Clone, Copy, Debug, PartialEq, Eq)]
pub struct Transition {
    /// The state that the prop has entered.
    pub state: State,
    /// What happens to the looping sound, for a prop that has one.
    pub audio: Option<AudioAction>,
    /// The sound to play once, for a prop that clicks.
    pub sound: Option<Sound>,
}

/// The id under which each family is interacted with.
pub open spec fn spec_interactable_id(kind: PropKind) -> Seq<char> {
    match kind {
        PropKind::Fireplace => "fireplace"@,
        PropKind::Stereo => "stereo"@,
        PropKind::Tree => "tree"@,
        PropKind::AtticLight => "attic-light"@,
        PropKind::LightSwitch => "light-switch"@,
    }
}

/// The id under which a family is interacted with.
pub fn interactable_id(kind: PropKind) -> (id: String)
    ensures
        id@ == spec_interactable_id(kind),
{
    match kind {
        PropKind::Fireplace => "fireplace".to_owned(),
        PropKind::Stereo => "stereo".to_owned(),
        PropKind::Tree => "tree".to_owned(),
        PropKind::AtticLight => "attic-light".to_owned(),
        PropKind::LightSwitch => "light-switch".to_owned(),
    }
}

/// Width and height of the box within which each family can be interacted
/// with, in thousandths of a pixel.
pub open spec fn spec_extent(kind: PropKind) -> (int, int) {
    match kind {
        PropKind::Fireplace => (48_000, 78_000),
        PropKind::Stereo => (20_000, 16_000),
        PropKind::Tree => (50_000, 64_000),
        PropKind::AtticLight => (2_000, 16_000),
        PropKind::LightSwitch => (3_000, 4_000),
    }
}

/// The interactable that registers a prop of this family for proximity
/// tracking.
pub fn interactable(kind: PropKind) -> (registered: Interactable)
    ensures
        registered.id@ == spec_interactable_id(kind),
        registered.width == spec_extent(kind).0,
        registered.height == spec_extent(kind).1,
{
    let id = interactable_id(kind);
    match kind {
        PropKind::Fireplace => Interactable { width: 48_000, height: 78_000, id },
        PropKind::Stereo => Interactable { width: 20_000, height: 16_000, id },
        PropKind::Tree => Interactable { width: 50_000, height: 64_000, id },
        PropKind::AtticLight => Interactable { width: 2_000, height: 16_000, id },
        PropKind::LightSwitch => Interactable { width: 3_000, height: 4_000, id },
    }
}

/// The speed at which each animated family changes frames, in frames per
/// second; the switches are not animated.
pub open spec fn spec_fps(kind: PropKind) -> Option<u8> {
    match kind {
        PropKind::Fireplace => Some(6u8),
        PropKind::Stereo => Some(4u8),
        PropKind::Tree => Some(2u8),
        PropKind::AtticLight => None,
        PropKind::LightSwitch => None,
    }
}

/// The last frame of the running sheet of each animated family.
pub const LAST_FRAME: usize = 4;

/// The frame range of a family with a fresh timer for its first frame.
pub fn animation_config(kind: PropKind) -> (config: Option<AnimationConfig>)
    ensures
        config == spec_animation_config(kind),
{
    match kind {
        PropKind::Fireplace => Some(AnimationConfig::new(0, LAST_FRAME, 6)),
        PropKind::Stereo => Some(AnimationConfig::new(0, LAST_FRAME, 4)),
        PropKind::Tree => Some(AnimationConfig::new(0, LAST_FRAME, 2)),
        PropKind::AtticLight => None,
        PropKind::LightSwitch => None,
    }
}

/// The sheet that a family shows while it is on, if it shows one.
pub open spec fn spec_running_sheet(kind: PropKind) -> Option<(SpriteImage, AtlasLayout)> {
    match kind {
        PropKind::Fireplace => Some((SpriteImage::FireplaceRunning, AtlasLayout::FireplaceRunning)),
        PropKind::Stereo => Some((SpriteImage::StereoRunning, AtlasLayout::StereoRunning)),
        PropKind::Tree => Some((SpriteImage::TreeOn, AtlasLayout::TreeOn)),
        PropKind::AtticLight => None,
        PropKind::LightSwitch => None,
    }
}

/// The picture of a family in a state. The hidden switch of the attic lamp
/// shows nothing in either state.
pub open spec fn spec_image(kind: PropKind, state: State) -> SpriteImage {
    match (kind, state) {
        (PropKind::Fireplace, State::Off) => SpriteImage::FireplaceOff,
        (PropKind::Fireplace, State::On) => SpriteImage::FireplaceRunning,
        (PropKind::Stereo, State::Off) => SpriteImage::StereoOff,
        (PropKind::Stereo, State::On) => SpriteImage::StereoRunning,
        (PropKind::Tree, State::Off) => SpriteImage::TreeOff,
        (PropKind::Tree, State::On) => SpriteImage::TreeOn,
        (PropKind::AtticLight, _) => SpriteImage::Blank,
        (PropKind::LightSwitch, State::Off) => SpriteImage::SwitchOff,
        (PropKind::LightSwitch, State::On) => SpriteImage::SwitchOn,
    }
}

/// The sheet frame that a family shows on entering a state: the first frame
/// of its running sheet when it turns on, none otherwise.
pub open spec fn spec_entry_atlas(kind: PropKind, state: State) -> Option<TextureAtlas> {
    match (state, spec_running_sheet(kind)) {
        (State::On, Some(sheet)) => Some(TextureAtlas { layout: sheet.1, index: 0 }),
        _ => None,
    }
}

/// The sprite of a prop that has just entered `state`. Whether the sprite
/// is mirrored does not depend on the state.
pub open spec fn spec_entry_sprite(kind: PropKind, state: State, flip_x: bool) -> Sprite {
    Sprite {
        image: spec_image(kind, state),
        texture_atlas: spec_entry_atlas(kind, state),
        flip_x,
    }
}

/// Whether a family has a looping sound.
pub open spec fn spec_has_loop(kind: PropKind) -> bool {
    kind == PropKind::Fireplace || kind == PropKind::Stereo
}

/// Whether a family clicks when it changes state.
pub open spec fn spec_clicks(kind: PropKind) -> bool {
    kind == PropKind::AtticLight || kind == PropKind::LightSwitch
}

/// What entering `state` asks of the sound system: the looping sound of a
/// prop plays exactly while the prop is on, and a switch clicks.
pub open spec fn spec_transition(kind: PropKind, state: State) -> Transition {
    Transition {
        state,
        audio: if spec_has_loop(kind) {
            Some(
                match state {
                    State::On => AudioAction::Play,
                    State::Off => AudioAction::Pause,
                },
            )
        } else {
            None
        },
        sound: if spec_clicks(kind) {
            Some(
                match state {
                    State::On => Sound::SwitchOn,
                    State::Off => Sound::SwitchOff,
                },
            )
        } else {
            None
        },
    }
}

/// The light at place `i` on the string along the roof: yellow, green and
/// red in turn.
pub open spec fn spec_xmas_light(i: int) -> LightKind {
    if i % 3 == 0 {
        LightKind::XmasYellow
    } else if i % 3 == 1 {
        LightKind::XmasGreen
    } else {
        LightKind::XmasRed
    }
}

/// The lights of each family, in order. The light switch of the house has
/// the attic lamp first and then the string along the roof.
pub open spec fn spec_light_kinds(kind: PropKind) -> Seq<LightKind> {
    match kind {
        PropKind::Fireplace => seq![LightKind::Fireplace],
        PropKind::Stereo => Seq::empty(),
        PropKind::Tree => seq![LightKind::Tree],
        PropKind::AtticLight => seq![LightKind::AtticLamp],
        PropKind::LightSwitch => Seq::new(
            (XMAS_LIGHTS + 1) as nat,
            |i: int|
                if i == 0 {
                    LightKind::HouseAttic
                } else {
                    spec_xmas_light(i - 1)
                },
        ),
    }
}

/// What a light of a prop in `state` must be: lit by a parameter set of its
/// kind while the prop is on, dark and without parameters while it is off.
pub open spec fn light_presents(entry: PropLight, state: State) -> bool {
    match state {
        State::On => entry.light.flicker.is_some() && is_drawn_for(
            entry.light.flicker.unwrap()@,
            entry.kind,
        ),
        State::Off => entry.light.flicker.is_none() && entry.light.intensity == 0,
    }
}

/// Whatever the prop was before, after an answered event its presentation
/// is that of its state: it is never on with the picture, the sound or the
/// lights of off, nor the other way round.
pub proof fn lemma_toggled_is_consistent(before: Prop, after: Prop)
    requires
        before.toggled_to(after),
    ensures
        after.consistent(),
        after.state != before.state,
{
}

/// Two answered events in a row bring the prop back to its state, with the
/// presentation of that state. A prop that is off after the second has
/// every light dark and without parameters.
pub proof fn lemma_toggled_twice_restores(before: Prop, between: Prop, after: Prop)
    requires
        before.toggled_to(between),
        between.toggled_to(after),
    ensures
        after.state == before.state,
        after.kind == before.kind,
        after.id == before.id,
        after.sprite == spec_entry_sprite(before.kind, before.state, before.sprite.flip_x),
        after.consistent(),
        after.state == State::Off ==> forall|i: int|
            0 <= i < after.lights@.len() ==> {
                &&& (#[trigger] after.lights@[i]).light.flicker.is_none()
                &&& after.lights@[i].light.intensity == 0
            },
{
}

impl Prop {
    /// The presentation is that of the state: the picture, whether a sheet
    /// is shown and which, the frame range, the looping sound and every
    /// light agree with it.
    pub open spec fn consistent(self) -> bool {
        &&& self.sprite.image == spec_image(self.kind, self.state)
        &&& match spec_entry_atlas(self.kind, self.state) {
            Some(entry) => self.sprite.texture_atlas.is_some()
                && self.sprite.texture_atlas.unwrap().layout == entry.layout,
            None => self.sprite.texture_atlas.is_none(),
        }
        &&& config_range(self.config) == config_range(spec_animation_config(self.kind))
        &&& self.playing == (spec_has_loop(self.kind) && self.state == State::On)
        &&& forall|i: int|
            0 <= i < self.lights@.len() ==> light_presents(#[trigger] self.lights@[i], self.state)
    }

    /// Whether the prop answers the event: the ids are the same.
    pub open spec fn answers(self, event: InteractionEvent) -> bool {
        event@ == self.id@
    }

    /// A prop of the given family as the scene starts: off, with the
    /// picture of that state, silent, its lights dark.
    pub fn new(kind: PropKind) -> (prop: Prop)
        ensures
            prop.kind == kind,
            prop.id@ == spec_interactable_id(kind),
            prop.state == State::Off,
            prop.sprite == spec_entry_sprite(kind, State::Off, false),
            prop.config == spec_animation_config(kind),
            prop.lights@.len() == spec_light_kinds(kind).len(),
            forall|i: int|
                0 <= i < prop.lights@.len() ==> {
                    &&& (#[trigger] prop.lights@[i]).kind == spec_light_kinds(kind)[i]
                    &&& prop.lights@[i].light.color == spec_palette(prop.lights@[i].kind)[0]
                },
            prop.consistent(),
    {
        let mut lights: Vec<PropLight> = Vec::new();
        let image = match kind {
            PropKind::Fireplace => {
                lights.push(Prop::dark_light(LightKind::Fireplace));
                SpriteImage::FireplaceOff
            },
            PropKind::Stereo => SpriteImage::StereoOff,
            PropKind::Tree => {
                lights.push(Prop::dark_light(LightKind::Tree));
                SpriteImage::TreeOff
            },
            PropKind::AtticLight => {
                lights.push(Prop::dark_light(LightKind::AtticLamp));
                SpriteImage::Blank
            },
            PropKind::LightSwitch => {
                lights.push(Prop::dark_light(LightKind::HouseAttic));
                let mut point: usize = 0;
                while point < XMAS_LIGHTS
                    invariant
                        point <= XMAS_LIGHTS,
                        lights@.len() == point + 1,
                        forall|i: int|
                            0 <= i < lights@.len() ==> {
                                &&& (#[trigger] lights@[i]).kind == spec_light_kinds(
                                    PropKind::LightSwitch,
                                )[i]
                                &&& lights@[i].light.color == spec_palette(lights@[i].kind)[0]
                                &&& light_presents(lights@[i], State::Off)
                            },
                    decreases XMAS_LIGHTS - point,
                {
                    let color = if point % 3 == 0 {
                        LightKind::XmasYellow
                    } else if point % 3 == 1 {
                        LightKind::XmasGreen
                    } else {
                        LightKind::XmasRed
                    };
                    lights.push(Prop::dark_light(color));
                    point += 1;
                }
                SpriteImage::SwitchOff
            },
        };
        Prop {
            kind,
            id: interactable_id(kind),
            state: State::Off,
            sprite: Sprite::still(image),
            config: animation_config(kind),
            playing: false,
            lights,
        }
    }

    /// A dark light of the given kind in the first colour of its palette.
    fn dark_light(kind: LightKind) -> (entry: PropLight)
        ensures
            entry.kind == kind,
            entry.light.color == spec_palette(kind)[0],
            entry.light.intensity == 0,
            entry.light.flicker.is_none(),
    {
        PropLight { kind, light: Light::new(initial_color(kind)) }
    }

    /// The sprite with which a prop of this family enters `state`.
    pub fn entry_sprite(kind: PropKind, state: State, flip_x: bool) -> (sprite: Sprite)
        ensures
            sprite == spec_entry_sprite(kind, state, flip_x),
    {
        let (image, sheet) = match (kind, state) {
            (PropKind::Fireplace, State::Off) => (SpriteImage::FireplaceOff, None),
            (PropKind::Fireplace, State::On) => (
                SpriteImage::FireplaceRunning,
                Some(AtlasLayout::FireplaceRunning),
            ),
            (PropKind::Stereo, State::Off) => (SpriteImage::StereoOff, None),
            (PropKind::Stereo, State::On) => (
                SpriteImage::StereoRunning,
                Some(AtlasLayout::StereoRunning),
            ),
            (PropKind::Tree, State::Off) => (SpriteImage::TreeOff, None),
            (PropKind::Tree, State::On) => (SpriteImage::TreeOn, Some(AtlasLayout::TreeOn)),
            (PropKind::AtticLight, _) => (SpriteImage::Blank, None),
            (PropKind::LightSwitch, State::Off) => (SpriteImage::SwitchOff, None),
            (PropKind::LightSwitch, State::On) => (SpriteImage::SwitchOn, None),
        };
        let texture_atlas = match sheet {
            Some(layout) => Some(TextureAtlas { layout, index: 0 }),
            None => None,
        };
        Sprite { image, texture_atlas, flip_x }
    }

    /// What entering `state` asks of the sound system.
    pub fn transition(kind: PropKind, state: State) -> (transition: Transition)
        ensures
            transition == spec_transition(kind, state),
    {
        let audio = match kind {
            PropKind::Fireplace | PropKind::Stereo => Some(
                match state {
                    State::On => AudioAction::Play,
                    State::Off => AudioAction::Pause,
                },
            ),
            _ => None,
        };
        let sound = match kind {
            PropKind::AtticLight | PropKind::LightSwitch => Some(
                match state {
                    State::On => Sound::SwitchOn,
                    State::Off => Sound::SwitchOff,
                },
            ),
            _ => None,
        };
        Transition { state, audio, sound }
    }

    /// Lights every light of the prop with a fresh parameter set of its
    /// kind, or puts every light out, as `state` asks.
    fn swap_lights(&mut self, state: State)
        ensures
            final(self).kind == old(self).kind,
            final(self).id == old(self).id,
            final(self).state == old(self).state,
            final(self).sprite == old(self).sprite,
            final(self).config == old(self).config,
            final(self).playing == old(self).playing,
            final(self).lights@.len() == old(self).lights@.len(),
            forall|i: int|
                0 <= i < old(self).lights@.len() ==> {
                    &&& (#[trigger] final(self).lights@[i]).kind == old(self).lights@[i].kind
                    &&& final(self).lights@[i].light.color == old(self).lights@[i].light.color
                    &&& light_presents(final(self).lights@[i], state)
                    &&& state == State::On ==> final(self).lights@[i].light.intensity
                        == old(self).lights@[i].light.intensity
                },
    {
        let mut i: usize = 0;
        while i < self.lights.len()
            invariant
                i <= self.lights@.len(),
                self.kind == old(self).kind,
                self.id == old(self).id,
                self.state == old(self).state,
                self.sprite == old(self).sprite,
                self.config == old(self).config,
                self.playing == old(self).playing,
                self.lights@.len() == old(self).lights@.len(),
                forall|j: int|
                    i <= j < self.lights@.len() ==> self.lights@[j] == old(self).lights@[j],
                forall|j: int|
                    0 <= j < i ==> {
                        &&& (#[trigger] self.lights@[j]).kind == old(self).lights@[j].kind
                        &&& self.lights@[j].light.color == old(self).lights@[j].light.color
                        &&& light_presents(self.lights@[j], state)
                        &&& state == State::On ==> self.lights@[j].light.intensity
                            == old(self).lights@[j].light.intensity
                    },
            decreases self.lights@.len() - i,
        {
            match state {
                State::On => {
                    let parameters = random_flicker_parameters(self.lights[i].kind);
                    let _ = self.lights[i].light.attach(parameters);
                },
                State::Off => {
                    self.lights[i].light.detach();
                },
            }
            i += 1;
        }
    }

    /// What an answered event makes of the prop. The state is toggled, and
    /// the whole presentation is that of the new state: the picture and the
    /// sheet at its first frame, the frame range with its timer at its
    /// start, the looping sound, and every light, which is lit by a
    /// parameter set of its kind or dark and without parameters. Identity,
    /// mirroring, the colours of the lights and, for lights that are lit,
    /// their intensity stay.
    pub open spec fn toggled_to(self, after: Prop) -> bool {
        &&& after.kind == self.kind
        &&& after.id == self.id
        &&& after.state == self.state.spec_toggled()
        &&& after.sprite == spec_entry_sprite(self.kind, after.state, self.sprite.flip_x)
        &&& after.config == spec_animation_config(self.kind)
        &&& after.playing == (spec_has_loop(self.kind) && after.state == State::On)
        &&& after.lights@.len() == self.lights@.len()
        &&& forall|i: int|
            0 <= i < self.lights@.len() ==> {
                &&& (#[trigger] after.lights@[i]).kind == self.lights@[i].kind
                &&& after.lights@[i].light.color == self.lights@[i].light.color
                &&& light_presents(after.lights@[i], after.state)
                &&& after.state == State::On ==> after.lights@[i].light.intensity
                    == self.lights@[i].light.intensity
            }
    }

    /// Answers an interaction event. An event with another id is ignored:
    /// the prop stays exactly as it is. An event with the prop's id toggles
    /// the state once and swaps the whole presentation to that of the new
    /// state: picture and sheet, frame range with its timer started anew,
    /// looping sound, and every light, which is lit with a fresh parameter
    /// set or put out at once.
    pub fn handle_interaction(&mut self, event: &InteractionEvent) -> (transition: Option<
        Transition,
    >)
        ensures
            !old(self).answers(*event) ==> transition.is_none() && *final(self) == *old(self),
            old(self).answers(*event) ==> {
                &&& transition == Some(
                    spec_transition(old(self).kind, old(self).state.spec_toggled()),
                )
                &&& old(self).toggled_to(*final(self))
            },
    {
        if event.id != self.id {
            return None;
        }
        let state = self.state.toggled();
        self.state = state;
        self.sprite = Prop::entry_sprite(self.kind, state, self.sprite.flip_x);
        self.config = animation_config(self.kind);
        self.playing = match self.kind {
            PropKind::Fireplace | PropKind::Stereo => state == State::On,
            _ => false,
        };
        self.swap_lights(state);
        Some(Prop::transition(self.kind, state))
    }

    /// Writes one sample of the flicker into the light at `index`. Nothing
    /// but that light is touched, and a light that was put out stays dark.
    pub fn write_sample(&mut self, index: usize, intensity: i32, color: Color)
        requires
            index < old(self).lights@.len(),
        ensures
            *final(self) == (Prop {
                lights: final(self).lights,
                ..*old(self)
            }),
            final(self).lights@ == old(self).lights@.update(
                index as int,
                PropLight {
                    kind: old(self).lights@[index as int].kind,
                    light: old(self).lights@[index as int].light.spec_sampled(intensity, color),
                },
            ),
            old(self).consistent() ==> final(self).consistent(),
    {
        self.lights[index].light.write_sample(intensity, color);
        assert(self.lights@ =~= old(self).lights@.update(
            index as int,
            PropLight {
                kind: old(self).lights@[index as int].kind,
                light: old(self).lights@[index as int].light.spec_sampled(intensity, color),
            },
        ));
    }

    /// How the frame on display may move when its time is up: the fire and
    /// the tree jump to another frame of their range, and the stereo steps
    /// through its range in a loop.
    pub open spec fn frame_moved(self, sprite: Sprite) -> bool {
        match (self.kind, self.config, self.sprite.texture_atlas) {
            (PropKind::Fireplace, Some(range), Some(atlas)) | (
                PropKind::Tree,
                Some(range),
                Some(atlas),
            ) => {
                &&& sprite.image == self.sprite.image
                &&& sprite.flip_x == self.sprite.flip_x
                &&& sprite.texture_atlas.is_some()
                &&& sprite.texture_atlas.unwrap().layout == atlas.layout
                &&& if has_other_frame(range.first_index, range.last_index, atlas.index) {
                    range.first_index <= sprite.texture_atlas.unwrap().index <= range.last_index
                        && sprite.texture_atlas.unwrap().index != atlas.index
                } else {
                    sprite.texture_atlas.unwrap().index == atlas.index
                }
            },
            (PropKind::Stereo, Some(range), Some(_)) => sprite == spec_advance_looping(
                self.sprite,
                range.first_index,
                range.last_index,
            ),
            _ => sprite == self.sprite,
        }
    }

    /// Whether the frame on display can move on: the prop has no frame
    /// range at all, or a range that is not empty, at a speed that is not
    /// zero, in which the frame after the one on display has a number.
    pub open spec fn spec_can_animate(self) -> bool {
        match self.config {
            Some(range) => {
                &&& range.fps > 0
                &&& range.first_index <= range.last_index
                &&& can_advance(self.sprite, range.last_index)
            },
            None => true,
        }
    }

    /// Whether the frame on display can move on.
    pub fn can_animate(&self) -> (able: bool)
        ensures
            able == self.spec_can_animate(),
    {
        match self.config {
            Some(range) => {
                let has_next = match self.sprite.texture_atlas {
                    Some(atlas) => atlas.index == range.last_index || atlas.index < usize::MAX,
                    None => true,
                };
                range.fps > 0 && range.first_index <= range.last_index && has_next
            },
            None => true,
        }
    }

    /// Whether the prop is animated: it is on, it belongs to a family with a
    /// running sheet, and it has a frame range and a sheet on display.
    pub open spec fn spec_moves(self) -> bool {
        &&& self.state == State::On
        &&& spec_running_sheet(self.kind).is_some()
        &&& self.config.is_some()
        &&& self.sprite.texture_atlas.is_some()
    }

    /// What the time of a frame being up makes of the prop. An animated
    /// prop shows another frame, as `frame_moved` says, and its frame timer
    /// is started anew; any other prop stays as it is.
    pub open spec fn advanced_to(self, after: Prop) -> bool {
        if self.spec_moves() {
            &&& after == (Prop {
                sprite: after.sprite,
                config: Some(self.config.unwrap().spec_restarted()),
                ..self
            })
            &&& self.frame_moved(after.sprite)
        } else {
            after == self
        }
    }

    /// The prop with its frame timer advanced by `delta_nanos`. Only the
    /// timer of a prop that is on runs.
    pub open spec fn spec_ticked(self, delta_nanos: u64) -> Prop {
        match (self.state, self.config) {
            (State::On, Some(range)) => Prop {
                config: Some(range.spec_ticked(delta_nanos)),
                ..self
            },
            _ => self,
        }
    }

    /// Whether the frame timer of the prop has just run out.
    pub open spec fn spec_due(self) -> bool {
        match self.config {
            Some(range) => range.frame_timer.just_finished,
            None => false,
        }
    }

    /// Moves the frame on display when its time is up, and leaves the prop
    /// alone when it is not.
    pub fn advance_frame(&mut self, due: bool)
        requires
            old(self).spec_can_animate(),
        ensures
            due ==> old(self).advanced_to(*final(self)),
            !due ==> *final(self) == *old(self),
            old(self).consistent() ==> final(self).consistent(),
    {
        if due && self.state == State::On {
            match self.config {
                Some(mut range) => {
                    if self.sprite.texture_atlas.is_some() {
                        match self.kind {
                            PropKind::Fireplace | PropKind::Tree => {
                                advance_random(&mut range, &mut self.sprite);
                                self.config = Some(range);
                            },
                            PropKind::Stereo => {
                                advance_looping(&mut range, &mut self.sprite);
                                self.config = Some(range);
                            },
                            _ => {},
                        }
                    }
                },
                None => {},
            }
        }
    }

    /// Advances the animation of the prop by `delta_nanos` nanoseconds: the
    /// frame timer of a prop that is on runs, and when it runs out, the
    /// frame on display moves.
    pub fn handle_animations(&mut self, delta_nanos: u64)
        requires
            old(self).spec_can_animate(),
        ensures
            if old(self).spec_ticked(delta_nanos).spec_due() {
                old(self).spec_ticked(delta_nanos).advanced_to(*final(self))
            } else {
                *final(self) == old(self).spec_ticked(delta_nanos)
            },
            old(self).consistent() ==> final(self).consistent(),
    {
        if self.state == State::Off {
            return ;
        }
        match self.config {
            Some(mut range) => {
                let due = range.tick(delta_nanos);
                self.config = Some(range);
                self.advance_frame(due);
            },
            None => {},
        }
    }
}

} // verus!
