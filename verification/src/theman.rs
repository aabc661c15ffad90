//! The character that the player moves: it idles, walks, acts on what is in
//! range and sits down on the chair.
//!
//! Lengths are integers in thousandths of a pixel, times in nanoseconds.
//! Whenever the state is assigned, the presentation of the assigned state is
//! put in place in the same step.

use crate::animation::advance_looping;
use crate::animation::advance_once;
use crate::animation::can_advance;
use crate::animation::spec_advance_looping;
use crate::animation::spec_advance_once;
use crate::animation::AnimationConfig;
use crate::chair;
use crate::input::Direction;
use crate::input::InputEvent;
use crate::interaction::event_id;
use crate::interaction::relation_id;
use crate::interaction::InRange;
use crate::interaction::InteractionEvent;
use crate::interaction::Interactor;
use crate::random::random_range;
use crate::santa::SantasHereEvent;
use crate::sprite::AtlasLayout;
use crate::sprite::Sound;
use crate::sprite::Sprite;
use crate::sprite::SpriteImage;
use crate::sprite::TextureAtlas;
use crate::timer::Timer;
use crate::timer::TimerMode;
use vstd::prelude::*;

verus! {

/// The states of the character.
#[derive(Clone, Copy, Debug, PartialEq, Eq, Structural)]
pub enum ManState {
    Idle,
    Action,
    Walking,
    Sitting,
}

/// The foot that makes the next step.
#[derive(Clone, Copy, Debug, PartialEq, Eq, Structural)]
pub enum FootStep {
    Left,
    Right,
}

/// The place that the character is walking to, and whether it acts there.
#[derive(Clone, Copy, Debug, PartialEq, Eq, Structural)]
pub struct Navigation {
    pub x: i32,
    pub action: bool,
}

/// Where the character stands; `z` orders it in depth among the sprites.
#[derive(Clone, Copy, Debug, PartialEq, Eq, Structural)]
pub struct Translation {
    pub x: i32,
    pub y: i32,
    pub z: i32,
}

/// The character walks no further left than this.
pub const LEFT_LIMIT: i32 = -82_000;

/// The character walks no further right than this.
pub const RIGHT_LIMIT: i32 = 160_000;

/// The depth at which the character walks, in front of the furniture.
pub const WALKING_DEPTH: i32 = 10_000;

/// How many sounds there are for the steps of each foot.
pub const FOOTSTEP_SOUNDS: usize = 3;

/// The time from one step to the next, in nanoseconds.
pub const STEP_NANOS: u64 = 450_000_000;

/// The time from setting off to the first step, in nanoseconds.
pub const FIRST_STEP_NANOS: u64 = 225_000_000;

/// The time that the character rests before it turns round, in
/// nanoseconds.
pub const IDLE_NANOS: u64 = 5_000_000_000;

/// The character.
#[derive(Clone, Copy, Debug, PartialEq, Eq)]
pub struct TheMan {
    pub state: ManState,
    /// Whether the state has been assigned since `settle` was last called.
    pub changed: bool,
    pub direction: Direction,
    pub translation: Translation,
    pub navigation: Option<Navigation>,
    pub sprite: Sprite,
    pub config: AnimationConfig,
    pub footstep: FootStep,
    /// Paces the turns of the idle character.
    pub idle_timer: Timer,
    /// Paces the steps of the walking character.
    pub step_timer: Timer,
}

/// Where the character sits on the chair.
pub open spec fn spec_seat() -> Translation {
    Translation { x: 74_000, y: -56_000i32, z: 4_000 }
}

/// The character as the scene starts: at rest at its starting place,
/// facing right, its left foot first. It turns round every five seconds of
/// rest, and it makes its first step at once.
pub open spec fn spec_start() -> TheMan {
    TheMan {
        state: ManState::Idle,
        changed: true,
        direction: Direction::Right,
        translation: Translation { x: -64_000i32, y: -56_000i32, z: WALKING_DEPTH },
        navigation: None,
        sprite: Sprite {
            image: SpriteImage::ManStanding,
            texture_atlas: Some(TextureAtlas { layout: AtlasLayout::ManStanding, index: 0 }),
            flip_x: false,
        },
        config: AnimationConfig::spec_new(0, 8, 10),
        footstep: FootStep::Left,
        idle_timer: Timer::spec_new(IDLE_NANOS, TimerMode::Repeating),
        step_timer: Timer::spec_new(0, TimerMode::Repeating),
    }
}

/// The character with the presentation of its state in place. Idle and
/// walking, it faces the way it is headed; walking and sitting, it shows
/// the first frame of its animation, with the frame timer at its start;
/// acting, it stands still.
pub open spec fn spec_presented(man: TheMan) -> TheMan {
    match man.state {
        ManState::Idle => TheMan {
            sprite: Sprite {
                image: SpriteImage::ManStanding,
                texture_atlas: Some(TextureAtlas { layout: AtlasLayout::ManStanding, index: 0 }),
                flip_x: man.direction == Direction::Left,
            },
            ..man
        },
        ManState::Walking => TheMan {
            sprite: Sprite {
                image: SpriteImage::ManWalking,
                texture_atlas: Some(TextureAtlas { layout: AtlasLayout::ManWalking, index: 0 }),
                flip_x: man.direction == Direction::Left,
            },
            config: AnimationConfig::spec_new(0, 8, 10),
            ..man
        },
        ManState::Sitting => TheMan {
            sprite: Sprite {
                image: SpriteImage::ManSitting,
                texture_atlas: Some(TextureAtlas { layout: AtlasLayout::ManSitting, index: 0 }),
                flip_x: false,
            },
            config: AnimationConfig::spec_new(0, 4, 10),
            ..man
        },
        ManState::Action => TheMan {
            sprite: Sprite {
                image: SpriteImage::ManStanding,
                texture_atlas: None,
                flip_x: man.sprite.flip_x,
            },
            ..man
        },
    }
}

/// The character after its state has been assigned: the assignment is
/// noted, and the presentation of the state is in place.
pub open spec fn spec_enter(man: TheMan, state: ManState) -> TheMan {
    spec_presented(TheMan { state, changed: true, ..man })
}

/// The way from `x` to `target_x`; `Up` when the character is there.
pub open spec fn spec_heading(x: i32, target_x: i32) -> Direction {
    if target_x > x {
        Direction::Right
    } else if target_x < x {
        Direction::Left
    } else {
        Direction::Up
    }
}

/// The character after one input of the player.
///
/// Released keys bring it to rest, unless it acts or sits. A key to the left
/// or right makes it walk that way, and the key up makes it act. A target
/// is noted as the place to walk to: the character walks towards it, or
/// rests when it is there already. An input with both a direction and a
/// target is ignored.
pub open spec fn spec_after_message(man: TheMan, event: InputEvent) -> TheMan {
    match (event.direction, event.target) {
        (None, None) => if man.state != ManState::Action && man.state != ManState::Sitting {
            spec_enter(man, ManState::Idle)
        } else {
            man
        },
        (Some(direction), None) => match direction {
            Direction::Up => spec_enter(man, ManState::Action),
            _ => spec_enter(TheMan { direction, ..man }, ManState::Walking),
        },
        (None, Some(target)) => {
            let heading = spec_heading(man.translation.x, target.x);
            let routed = TheMan {
                navigation: Some(Navigation { x: target.x, action: target.action }),
                direction: heading,
                ..man
            };
            match heading {
                Direction::Up => spec_enter(routed, ManState::Idle),
                _ => spec_enter(routed, ManState::Walking),
            }
        },
        (Some(_), Some(_)) => man,
    }
}

/// How far the character walks in `delta_nanos` nanoseconds, at 30 pixels
/// per second, in thousandths of a pixel.
pub open spec fn spec_step(delta_nanos: u64) -> int {
    delta_nanos * 3 / 100_000
}

/// Whether the walking character has reached or passed the place it is
/// walking to.
pub open spec fn spec_arrived(man: TheMan) -> bool {
    match man.navigation {
        Some(target) => {
            ||| man.direction == Direction::Left && man.translation.x <= target.x
            ||| man.direction == Direction::Right && man.translation.x >= target.x
        },
        None => false,
    }
}

/// The coordinate after a walk of `step` from `x` to the left or right,
/// held within the limits of the scene.
pub open spec fn spec_walk(x: i32, direction: Direction, step: int) -> int {
    match direction {
        Direction::Left => if x - step >= LEFT_LIMIT {
            x - step
        } else {
            LEFT_LIMIT as int
        },
        Direction::Right => if x + step <= RIGHT_LIMIT {
            x + step
        } else {
            RIGHT_LIMIT as int
        },
        Direction::Up => x as int,
    }
}

/// The character after `delta_nanos` nanoseconds of movement.
///
/// Only a walking character moves. Once it has reached the place it was
/// walking to, it forgets the place and acts or rests, as was asked. Else
/// it walks on in its direction, within the limits of the scene and at
/// walking depth.
pub open spec fn spec_after_movement(man: TheMan, delta_nanos: u64) -> TheMan {
    if man.state != ManState::Walking {
        man
    } else if spec_arrived(man) {
        spec_enter(
            TheMan { navigation: None, ..man },
            if man.navigation.unwrap().action {
                ManState::Action
            } else {
                ManState::Idle
            },
        )
    } else if man.direction == Direction::Up {
        man
    } else {
        TheMan {
            translation: Translation {
                x: spec_walk(man.translation.x, man.direction, spec_step(delta_nanos)) as i32,
                y: man.translation.y,
                z: WALKING_DEPTH,
            },
            ..man
        }
    }
}

/// The character after an interaction with the chair: acting, it sits down
/// on the seat; sitting, it gets up and rests; else nothing happens.
pub open spec fn spec_after_chair(man: TheMan) -> TheMan {
    match man.state {
        ManState::Action => spec_enter(
            TheMan { translation: spec_seat(), ..man },
            ManState::Sitting,
        ),
        ManState::Sitting => spec_enter(
            TheMan {
                translation: Translation { z: WALKING_DEPTH, ..man.translation },
                ..man
            },
            ManState::Idle,
        ),
        _ => man,
    }
}

/// The character after the time of its frame is up: sitting down plays once
/// and stops on its last frame, walking loops, and each new frame has the
/// frame timer started anew. The other states show a still picture.
pub open spec fn spec_after_frame(man: TheMan) -> TheMan {
    match (man.state, man.sprite.texture_atlas) {
        (ManState::Sitting, Some(atlas)) => if atlas.index < man.config.last_index {
            TheMan {
                sprite: spec_advance_once(man.sprite, man.config.last_index),
                config: man.config.spec_restarted(),
                ..man
            }
        } else {
            man
        },
        (ManState::Walking, Some(_)) => TheMan {
            sprite: spec_advance_looping(man.sprite, man.config.first_index, man.config.last_index),
            config: man.config.spec_restarted(),
            ..man
        },
        _ => man,
    }
}

/// The character `delta_nanos` nanoseconds further into its animation.
/// While it rests or acts nothing happens. Else the frame timer runs, and
/// when it runs out, the frame on display moves.
pub open spec fn spec_after_animation(man: TheMan, delta_nanos: u64) -> TheMan {
    if man.state == ManState::Idle || man.state == ManState::Action {
        man
    } else {
        let ticked = TheMan { config: man.config.spec_ticked(delta_nanos), ..man };
        if ticked.config.frame_timer.just_finished {
            spec_after_frame(ticked)
        } else {
            ticked
        }
    }
}

/// The other foot.
pub open spec fn spec_other_foot(footstep: FootStep) -> FootStep {
    match footstep {
        FootStep::Left => FootStep::Right,
        FootStep::Right => FootStep::Left,
    }
}

/// The sound of a step of the given foot.
pub open spec fn spec_step_sound(footstep: FootStep, index: usize) -> Sound {
    match footstep {
        FootStep::Left => Sound::LeftStep(index),
        FootStep::Right => Sound::RightStep(index),
    }
}

/// The character `delta_nanos` nanoseconds later in its steps, and the
/// sound that this brings.
///
/// While the character walks, the step timer runs. When it runs out, the
/// foot whose turn it is makes a step, with the sound of that foot that
/// has the number `drawn`; the turn passes to the other foot, and the next
/// step is due after the time between steps. While the character does not
/// walk, the timer is set to the time before the first step.
pub open spec fn spec_after_audio(man: TheMan, delta_nanos: u64, drawn: usize) -> (
    TheMan,
    Option<Sound>,
) {
    if man.state == ManState::Walking {
        let ticked = man.step_timer.spec_ticked(delta_nanos);
        if ticked.just_finished {
            (
                TheMan {
                    step_timer: Timer { duration: STEP_NANOS, ..ticked },
                    footstep: spec_other_foot(man.footstep),
                    ..man
                },
                Some(spec_step_sound(man.footstep, drawn)),
            )
        } else {
            (TheMan { step_timer: ticked, ..man }, None)
        }
    } else {
        (TheMan { step_timer: Timer { duration: FIRST_STEP_NANOS, ..man.step_timer }, ..man }, None)
    }
}

/// The character `delta_nanos` nanoseconds later in its rest. While it
/// rests, the idle timer runs, and each time it runs out the character
/// turns round. While it does anything else, the timer is held at its
/// start.
pub open spec fn spec_after_idle(man: TheMan, delta_nanos: u64) -> TheMan {
    if man.state == ManState::Idle {
        let ticked = man.idle_timer.spec_ticked(delta_nanos);
        TheMan {
            idle_timer: ticked,
            sprite: Sprite {
                flip_x: if ticked.just_finished {
                    !man.sprite.flip_x
                } else {
                    man.sprite.flip_x
                },
                ..man.sprite
            },
            ..man
        }
    } else {
        TheMan { idle_timer: Timer::spec_new(man.idle_timer.duration, man.idle_timer.mode), ..man }
    }
}

/// Whether the character shows its state: the picture and the sheet are
/// those of the state, and a walking or sitting character has the frame
/// range of its animation and shows a frame of it.
pub open spec fn spec_shows_state(man: TheMan) -> bool {
    match man.state {
        ManState::Idle => {
            &&& man.sprite.image == SpriteImage::ManStanding
            &&& man.sprite.texture_atlas == Some(
                TextureAtlas { layout: AtlasLayout::ManStanding, index: 0 },
            )
        },
        ManState::Action => {
            &&& man.sprite.image == SpriteImage::ManStanding
            &&& man.sprite.texture_atlas.is_none()
        },
        ManState::Walking => {
            &&& man.sprite.image == SpriteImage::ManWalking
            &&& man.sprite.texture_atlas.is_some()
            &&& man.sprite.texture_atlas.unwrap().layout == AtlasLayout::ManWalking
            &&& man.sprite.texture_atlas.unwrap().index <= 8
            &&& (man.config.first_index, man.config.last_index, man.config.fps) == (
                0usize,
                8usize,
                10u8,
            )
        },
        ManState::Sitting => {
            &&& man.sprite.image == SpriteImage::ManSitting
            &&& man.sprite.texture_atlas.is_some()
            &&& man.sprite.texture_atlas.unwrap().layout == AtlasLayout::ManSitting
            &&& man.sprite.texture_atlas.unwrap().index <= 4
            &&& (man.config.first_index, man.config.last_index, man.config.fps) == (
                0usize,
                4usize,
                10u8,
            )
            &&& !man.sprite.flip_x
        },
    }
}

/// Whatever the character was, once its state has been assigned it shows
/// that state.
pub proof fn lemma_enter_shows_state(man: TheMan, state: ManState)
    ensures
        spec_shows_state(spec_enter(man, state)),
        spec_enter(man, state).state == state,
        spec_enter(man, state).changed,
{
}

/// A character that shows its state still shows it after an input, after
/// moving, after an interaction with the chair, after any time of
/// animation, of steps and of rest, and at the end of a tick: no step
/// leaves it in one state with the picture of another.
pub proof fn lemma_steps_keep_showing_state(
    man: TheMan,
    event: InputEvent,
    delta_nanos: u64,
    drawn: usize,
)
    requires
        spec_shows_state(man),
    ensures
        spec_shows_state(spec_start()),
        spec_shows_state(spec_after_message(man, event)),
        spec_shows_state(spec_after_movement(man, delta_nanos)),
        spec_shows_state(spec_after_chair(man)),
        spec_shows_state(spec_after_animation(man, delta_nanos)),
        spec_shows_state(spec_after_audio(man, delta_nanos, drawn).0),
        spec_shows_state(spec_after_idle(man, delta_nanos)),
        spec_shows_state(TheMan { changed: false, ..man }),
{
}

/// The transitions of the character. Resting, it walks on a key to the
/// left or right and acts on the key up; walking, it rests when the keys
/// are released or the place it was walking to is reached; acting, it sits
/// down on the chair; sitting, it gets up from the chair and rests.
pub proof fn lemma_transitions(man: TheMan, direction: Direction)
    ensures
        man.state == ManState::Idle && direction != Direction::Up ==> spec_after_message(
            man,
            InputEvent { direction: Some(direction), target: None },
        ).state == ManState::Walking,
        man.state == ManState::Idle ==> spec_after_message(
            man,
            InputEvent { direction: Some(Direction::Up), target: None },
        ).state == ManState::Action,
        man.state == ManState::Walking ==> spec_after_message(
            man,
            InputEvent { direction: None, target: None },
        ).state == ManState::Idle,
        man.state == ManState::Walking && spec_arrived(man) ==> spec_after_movement(man, 0).state
            != ManState::Walking,
        man.state == ManState::Action ==> spec_after_chair(man).state == ManState::Sitting,
        man.state == ManState::Sitting ==> spec_after_chair(man).state == ManState::Idle,
{
}

/// The walk stays within the limits of the machine's integers, and a
/// character within the limits of the scene stays within them.
pub proof fn lemma_walk_in_range(x: i32, direction: Direction, step: int)
    requires
        step >= 0,
    ensures
        i32::MIN <= spec_walk(x, direction, step) <= i32::MAX,
        LEFT_LIMIT <= x <= RIGHT_LIMIT ==> LEFT_LIMIT <= spec_walk(x, direction, step)
            <= RIGHT_LIMIT,
{
}

impl TheMan {
    /// The character as the scene starts.
    pub fn new() -> (man: TheMan)
        ensures
            man == spec_start(),
    {
        TheMan {
            state: ManState::Idle,
            changed: true,
            direction: Direction::Right,
            translation: Translation { x: -64_000, y: -56_000, z: WALKING_DEPTH },
            navigation: None,
            sprite: Sprite::sheet(SpriteImage::ManStanding, AtlasLayout::ManStanding),
            config: AnimationConfig::new(0, 8, 10),
            footstep: FootStep::Left,
            idle_timer: Timer::new(IDLE_NANOS, TimerMode::Repeating),
            step_timer: Timer::new(0, TimerMode::Repeating),
        }
    }

    /// The box of the character for proximity tracking: 13 by 32 pixels.
    pub fn interactor() -> (registered: Interactor)
        ensures
            registered == (Interactor { width: 13_000, height: 32_000 }),
    {
        Interactor { width: 13_000, height: 32_000 }
    }

    /// Puts the presentation of the current state in place.
    pub fn handle_animation_state_change(&mut self)
        ensures
            *final(self) == spec_presented(*old(self)),
    {
        let facing_left = self.direction == Direction::Left;
        match self.state {
            ManState::Idle => {
                self.sprite = Sprite {
                    image: SpriteImage::ManStanding,
                    texture_atlas: Some(
                        TextureAtlas { layout: AtlasLayout::ManStanding, index: 0 },
                    ),
                    flip_x: facing_left,
                };
            },
            ManState::Walking => {
                self.sprite = Sprite {
                    image: SpriteImage::ManWalking,
                    texture_atlas: Some(
                        TextureAtlas { layout: AtlasLayout::ManWalking, index: 0 },
                    ),
                    flip_x: facing_left,
                };
                self.config = AnimationConfig::new(0, 8, 10);
            },
            ManState::Sitting => {
                self.sprite = Sprite {
                    image: SpriteImage::ManSitting,
                    texture_atlas: Some(
                        TextureAtlas { layout: AtlasLayout::ManSitting, index: 0 },
                    ),
                    flip_x: false,
                };
                self.config = AnimationConfig::new(0, 4, 10);
            },
            ManState::Action => {
                self.sprite = Sprite {
                    image: SpriteImage::ManStanding,
                    texture_atlas: None,
                    flip_x: self.sprite.flip_x,
                };
            },
        }
    }

    /// Assigns the state and puts its presentation in place.
    fn enter(&mut self, state: ManState)
        ensures
            *final(self) == spec_enter(*old(self), state),
    {
        self.state = state;
        self.changed = true;
        self.handle_animation_state_change();
    }

    /// Takes one input of the player.
    pub fn handle_messages(&mut self, event: &InputEvent)
        ensures
            *final(self) == spec_after_message(*old(self), *event),
    {
        match (event.direction, event.target) {
            (None, None) => {
                if self.state != ManState::Action && self.state != ManState::Sitting {
                    self.enter(ManState::Idle);
                }
            },
            (Some(direction), None) => {
                match direction {
                    Direction::Up => {
                        self.enter(ManState::Action);
                    },
                    _ => {
                        self.direction = direction;
                        self.enter(ManState::Walking);
                    },
                }
            },
            (None, Some(target)) => {
                let heading = if target.x > self.translation.x {
                    Direction::Right
                } else if target.x < self.translation.x {
                    Direction::Left
                } else {
                    Direction::Up
                };
                self.navigation = Some(Navigation { x: target.x, action: target.action });
                self.direction = heading;
                match heading {
                    Direction::Up => {
                        self.enter(ManState::Idle);
                    },
                    _ => {
                        self.enter(ManState::Walking);
                    },
                }
            },
            (Some(_), Some(_)) => {},
        }
    }

    /// How far the character walks in `delta_nanos` nanoseconds.
    pub fn step(delta_nanos: u64) -> (step: u64)
        ensures
            step == spec_step(delta_nanos),
    {
        let scaled: u128 = (delta_nanos as u128) * 3;
        (scaled / 100_000) as u64
    }

    /// Moves the character for `delta_nanos` nanoseconds.
    pub fn handle_movement(&mut self, delta_nanos: u64)
        ensures
            *final(self) == spec_after_movement(*old(self), delta_nanos),
    {
        if self.state != ManState::Walking {
            return ;
        }
        let x = self.translation.x;
        match self.navigation {
            Some(target) => {
                if (self.direction == Direction::Left && x <= target.x) || (self.direction
                    == Direction::Right && x >= target.x) {
                    self.navigation = None;
                    if target.action {
                        self.enter(ManState::Action);
                    } else {
                        self.enter(ManState::Idle);
                    }
                    return ;
                }
            },
            None => {},
        }
        let step = TheMan::step(delta_nanos);
        proof {
            lemma_walk_in_range(x, self.direction, step as int);
        }
        match self.direction {
            Direction::Left => {
                let walked: i128 = x as i128 - step as i128;
                self.translation.x = if walked >= LEFT_LIMIT as i128 {
                    walked as i32
                } else {
                    LEFT_LIMIT
                };
                self.translation.z = WALKING_DEPTH;
            },
            Direction::Right => {
                let walked: i128 = x as i128 + step as i128;
                self.translation.x = if walked <= RIGHT_LIMIT as i128 {
                    walked as i32
                } else {
                    RIGHT_LIMIT
                };
                self.translation.z = WALKING_DEPTH;
            },
            Direction::Up => {},
        }
    }

    /// Answers an interaction event. Only the events of the chair concern
    /// the character: acting, it sits down, and that is when the visitor
    /// is called; sitting, it gets up.
    pub fn handle_chair_interaction(&mut self, event: &InteractionEvent) -> (called: Option<
        SantasHereEvent,
    >)
        ensures
            event@ != chair::spec_interactable_id() ==> *final(self) == *old(self)
                && called.is_none(),
            event@ == chair::spec_interactable_id() ==> {
                &&& *final(self) == spec_after_chair(*old(self))
                &&& called.is_some() == (old(self).state == ManState::Action)
            },
    {
        if event.id != chair::interactable_id() {
            return None;
        }
        match self.state {
            ManState::Action => {
                self.translation = Translation { x: 74_000, y: -56_000, z: 4_000 };
                self.enter(ManState::Sitting);
                Some(SantasHereEvent)
            },
            ManState::Sitting => {
                self.translation.z = WALKING_DEPTH;
                self.enter(ManState::Idle);
                None
            },
            _ => None,
        }
    }

    /// The interaction that the character triggers: when its state has just
    /// been assigned and it acts, it sends the id of the interactable in
    /// range, and without one in range it sends nothing.
    pub fn handle_interactions(&self, in_range: &Option<InRange>) -> (event: Option<
        InteractionEvent,
    >)
        ensures
            event_id(event) == if self.changed && self.state == ManState::Action {
                relation_id(*in_range)
            } else {
                None
            },
    {
        if self.changed && self.state == ManState::Action {
            crate::interaction::dispatch(in_range)
        } else {
            None
        }
    }

    /// Ends a tick: the assignments of the state have been acted on.
    pub fn settle(&mut self)
        ensures
            *final(self) == (TheMan { changed: false, ..*old(self) }),
    {
        self.changed = false;
    }

    /// Whether the frame on display can move on: the speed is not zero, and
    /// the frame after the one on display has a number.
    pub open spec fn spec_can_animate(self) -> bool {
        self.config.fps > 0 && can_advance(self.sprite, self.config.last_index)
    }

    /// Whether the frame on display can move on.
    pub fn can_animate(&self) -> (able: bool)
        ensures
            able == self.spec_can_animate(),
    {
        let has_next = match self.sprite.texture_atlas {
            Some(atlas) => atlas.index == self.config.last_index || atlas.index < usize::MAX,
            None => true,
        };
        self.config.fps > 0 && has_next
    }

    /// Advances the animation by `delta_nanos` nanoseconds.
    pub fn handle_animations(&mut self, delta_nanos: u64)
        requires
            old(self).spec_can_animate(),
        ensures
            *final(self) == spec_after_animation(*old(self), delta_nanos),
    {
        if self.state == ManState::Idle || self.state == ManState::Action {
            return ;
        }
        let due = self.config.tick(delta_nanos);
        if due {
            match self.state {
                ManState::Sitting => {
                    advance_once(&mut self.config, &mut self.sprite);
                },
                ManState::Walking => {
                    advance_looping(&mut self.config, &mut self.sprite);
                },
                _ => {},
            }
        }
    }

    /// Paces the steps for `delta_nanos` nanoseconds, with `drawn` as the
    /// number of the sound of a step that falls due.
    pub fn pace_steps(&mut self, delta_nanos: u64, drawn: usize) -> (sound: Option<Sound>)
        ensures
            (*final(self), sound) == spec_after_audio(*old(self), delta_nanos, drawn),
    {
        if self.state == ManState::Walking {
            self.step_timer.tick(delta_nanos);
            if self.step_timer.just_finished {
                let sound = match self.footstep {
                    FootStep::Left => {
                        self.footstep = FootStep::Right;
                        Sound::LeftStep(drawn)
                    },
                    FootStep::Right => {
                        self.footstep = FootStep::Left;
                        Sound::RightStep(drawn)
                    },
                };
                self.step_timer.set_duration(STEP_NANOS);
                Some(sound)
            } else {
                None
            }
        } else {
            self.step_timer.set_duration(FIRST_STEP_NANOS);
            None
        }
    }

    /// Paces the steps for `delta_nanos` nanoseconds. The sound of a step
    /// that falls due is picked at random among those of its foot.
    pub fn handle_audio(&mut self, delta_nanos: u64) -> (sound: Option<Sound>)
        ensures
            exists|drawn: usize|
                drawn < FOOTSTEP_SOUNDS && (*final(self), sound) == #[trigger] spec_after_audio(
                    *old(self),
                    delta_nanos,
                    drawn,
                ),
    {
        let drawn = if self.state == ManState::Walking {
            random_range(0, FOOTSTEP_SOUNDS - 1)
        } else {
            0
        };
        self.pace_steps(delta_nanos, drawn)
    }

    /// Paces the turns of the resting character for `delta_nanos`
    /// nanoseconds.
    pub fn handle_idle_action(&mut self, delta_nanos: u64)
        ensures
            *final(self) == spec_after_idle(*old(self), delta_nanos),
    {
        if self.state == ManState::Idle {
            self.idle_timer.tick(delta_nanos);
            if self.idle_timer.just_finished {
                self.sprite.flip_x = !self.sprite.flip_x;
            }
        } else {
            self.idle_timer.reset();
        }
    }
}

} // verus!
