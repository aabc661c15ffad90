//! Frame advancement on sprite sheets: the frame range of a prop, the timer
//! that paces it and the rules by which the frame on display moves on.

use crate::random::random_range;
use crate::sprite::Sprite;
use crate::sprite::TextureAtlas;
use crate::timer::Timer;
use crate::timer::TimerMode;
use vstd::prelude::*;

verus! {

/// Nanoseconds in a second.
pub const NANOS_PER_SECOND: u64 = 1_000_000_000;

/// The frame range of a sprite sheet animation and the timer that paces it.
#[derive(Clone, Copy, Debug, PartialEq, Eq, Structural)]
pub struct AnimationConfig {
    pub first_index: usize,
    pub last_index: usize,
    pub fps: u8,
    pub frame_timer: Timer,
}

/// How long one frame stays at `fps` frames per second, in nanoseconds.
pub open spec fn spec_frame_nanos(fps: u8) -> int {
    NANOS_PER_SECOND as int / fps as int
}

/// How long one frame stays at `fps` frames per second, in nanoseconds.
pub fn frame_nanos(fps: u8) -> (nanos: u64)
    requires
        fps > 0,
    ensures
        nanos == spec_frame_nanos(fps),
        nanos > 0,
{
    proof {
        vstd::arithmetic::div_mod::lemma_div_non_zero(NANOS_PER_SECOND as int, fps as int);
    }
    NANOS_PER_SECOND / (fps as u64)
}

impl AnimationConfig {
    /// A one-shot timer at its start that runs for one frame at `fps`
    /// frames per second.
    pub open spec fn spec_timer_from_fps(fps: u8) -> Timer {
        Timer::spec_new(spec_frame_nanos(fps) as u64, TimerMode::Once)
    }

    /// A range of frames with the timer of its first frame at its start.
    pub open spec fn spec_new(first: usize, last: usize, fps: u8) -> AnimationConfig {
        AnimationConfig {
            first_index: first,
            last_index: last,
            fps,
            frame_timer: AnimationConfig::spec_timer_from_fps(fps),
        }
    }

    /// The same range with the timer started anew for the next frame.
    pub open spec fn spec_restarted(self) -> AnimationConfig {
        AnimationConfig { frame_timer: AnimationConfig::spec_timer_from_fps(self.fps), ..self }
    }

    /// The same range with the timer advanced by `delta_nanos`.
    pub open spec fn spec_ticked(self, delta_nanos: u64) -> AnimationConfig {
        AnimationConfig { frame_timer: self.frame_timer.spec_ticked(delta_nanos), ..self }
    }

    /// A range of frames shown at `fps` frames per second, with a fresh
    /// timer for the first frame. A speed of zero has no frame duration.
    pub fn new(first: usize, last: usize, fps: u8) -> (config: AnimationConfig)
        requires
            fps > 0,
        ensures
            config == AnimationConfig::spec_new(first, last, fps),
    {
        AnimationConfig {
            first_index: first,
            last_index: last,
            fps,
            frame_timer: AnimationConfig::timer_from_fps(fps),
        }
    }

    /// A one-shot timer that runs for one frame at `fps` frames per second.
    pub fn timer_from_fps(fps: u8) -> (timer: Timer)
        requires
            fps > 0,
        ensures
            timer == AnimationConfig::spec_timer_from_fps(fps),
    {
        Timer::new(frame_nanos(fps), TimerMode::Once)
    }

    /// Advances the frame timer and tells whether the frame's time is up.
    pub fn tick(&mut self, delta_nanos: u64) -> (due: bool)
        ensures
            *final(self) == old(self).spec_ticked(delta_nanos),
            due == final(self).frame_timer.just_finished,
    {
        self.frame_timer.tick(delta_nanos);
        self.frame_timer.just_finished
    }

    /// Starts the timer anew for the next frame.
    pub fn restart(&mut self)
        requires
            old(self).fps > 0,
        ensures
            *final(self) == old(self).spec_restarted(),
    {
        self.frame_timer = AnimationConfig::timer_from_fps(self.fps);
    }
}

/// The frame after `index` in a loop over `first..=last`: after the last
/// frame comes the first.
pub open spec fn spec_next_looping(index: usize, first: usize, last: usize) -> int {
    if index == last {
        first as int
    } else {
        index + 1
    }
}

/// The frame after `index` in a loop over `first..=last`.
pub fn next_looping(index: usize, first: usize, last: usize) -> (next: usize)
    requires
        index == last || index < usize::MAX,
    ensures
        next == spec_next_looping(index, first, last),
{
    if index == last {
        first
    } else {
        index + 1
    }
}

/// The frame after `index` in an animation that plays once: it stops on the
/// last frame.
pub open spec fn spec_next_once(index: usize, last: usize) -> int {
    if index < last {
        index + 1
    } else {
        index as int
    }
}

/// The frame after `index` in an animation that plays once.
pub fn next_once(index: usize, last: usize) -> (next: usize)
    ensures
        next == spec_next_once(index, last),
{
    if index < last {
        index + 1
    } else {
        index
    }
}

/// Whether `first..=last` holds a frame other than `current`.
pub open spec fn has_other_frame(first: usize, last: usize, current: usize) -> bool {
    first < last || (first == last && current != first)
}

/// The lowest and highest value to draw when a frame other than `current`
/// is wanted from `first..=last`: the whole range when `current` lies
/// outside it, and one value less when it lies inside.
pub open spec fn spec_draw_bounds(first: usize, last: usize, current: usize) -> (int, int) {
    if first <= current <= last {
        (first as int, last - 1)
    } else {
        (first as int, last as int)
    }
}

/// The frame that a drawn value stands for: the values below `current` stand
/// for themselves, and those from `current` on, when `current` lies in the
/// range, for the frame above them. So each frame but `current` is hit by
/// exactly one value.
pub open spec fn spec_other_frame(first: usize, last: usize, current: usize, drawn: usize) -> int {
    if first <= current <= last && drawn >= current {
        drawn + 1
    } else {
        drawn as int
    }
}

/// Turns a value drawn within the bounds of `spec_draw_bounds` into a frame
/// of `first..=last` other than `current`.
pub fn other_frame(first: usize, last: usize, current: usize, drawn: usize) -> (next: usize)
    requires
        has_other_frame(first, last, current),
        spec_draw_bounds(first, last, current).0 <= drawn <= spec_draw_bounds(
            first,
            last,
            current,
        ).1,
    ensures
        next == spec_other_frame(first, last, current, drawn),
        first <= next <= last,
        next != current,
{
    if first <= current && current <= last && drawn >= current {
        drawn + 1
    } else {
        drawn
    }
}

/// Every frame of the range but the current one is reached by a value within
/// the bounds, and by one only.
pub proof fn lemma_other_frame_covers(first: usize, last: usize, current: usize, frame: usize)
    requires
        has_other_frame(first, last, current),
        first <= frame <= last,
        frame != current,
    ensures
        exists|drawn: usize|
            {
                &&& spec_draw_bounds(first, last, current).0 <= drawn <= spec_draw_bounds(
                    first,
                    last,
                    current,
                ).1
                &&& #[trigger] spec_other_frame(first, last, current, drawn) == frame
            },
        forall|a: usize, b: usize|
            spec_other_frame(first, last, current, a) == frame && spec_other_frame(
                first,
                last,
                current,
                b,
            ) == frame ==> a == b,
{
    let drawn: usize = if first <= current <= last && frame > current {
        (frame - 1) as usize
    } else {
        frame
    };
    assert(spec_other_frame(first, last, current, drawn) == frame);
}

/// Picks at random a frame of `first..=last` other than `current`. Where the
/// range holds no other frame, the current one stays.
pub fn random_other_frame(first: usize, last: usize, current: usize) -> (next: usize)
    requires
        first <= last,
    ensures
        has_other_frame(first, last, current) ==> first <= next <= last && next != current,
        !has_other_frame(first, last, current) ==> next == current,
{
    if first == last && current == first {
        current
    } else if first <= current && current <= last {
        let drawn = random_range(first, last - 1);
        other_frame(first, last, current, drawn)
    } else {
        let drawn = random_range(first, last);
        other_frame(first, last, current, drawn)
    }
}

/// The sprite after its frame's time is up in a looping animation.
pub open spec fn spec_advance_looping(sprite: Sprite, first: usize, last: usize) -> Sprite {
    match sprite.texture_atlas {
        Some(atlas) => sprite.with_frame(spec_next_looping(atlas.index, first, last) as usize),
        None => sprite,
    }
}

/// The sprite after its frame's time is up in an animation that plays once.
pub open spec fn spec_advance_once(sprite: Sprite, last: usize) -> Sprite {
    match sprite.texture_atlas {
        Some(atlas) => sprite.with_frame(spec_next_once(atlas.index, last) as usize),
        None => sprite,
    }
}

/// Whether the frame on display can move on in a loop without leaving the
/// machine's integers.
pub open spec fn can_advance(sprite: Sprite, last: usize) -> bool {
    match sprite.texture_atlas {
        Some(atlas) => atlas.index == last || atlas.index < usize::MAX,
        None => true,
    }
}

/// Moves a looping animation to its next frame and restarts the frame timer.
/// A sprite without a sheet stays as it is, and its timer is left alone.
pub fn advance_looping(config: &mut AnimationConfig, sprite: &mut Sprite)
    requires
        old(config).fps > 0,
        can_advance(*old(sprite), old(config).last_index),
    ensures
        *final(sprite) == spec_advance_looping(
            *old(sprite),
            old(config).first_index,
            old(config).last_index,
        ),
        *final(config) == if old(sprite).texture_atlas.is_some() {
            old(config).spec_restarted()
        } else {
            *old(config)
        },
{
    match sprite.texture_atlas {
        Some(atlas) => {
            let index = next_looping(atlas.index, config.first_index, config.last_index);
            sprite.texture_atlas = Some(TextureAtlas { layout: atlas.layout, index });
            config.restart();
        },
        None => {},
    }
}

/// Moves an animation that plays once to its next frame; the frame timer is
/// restarted unless the last frame was already on display. A sprite without
/// a sheet stays as it is.
pub fn advance_once(config: &mut AnimationConfig, sprite: &mut Sprite)
    requires
        old(config).fps > 0,
    ensures
        *final(sprite) == spec_advance_once(*old(sprite), old(config).last_index),
        *final(config) == if old(sprite).frame().is_some() && old(sprite).frame().unwrap() < old(
            config,
        ).last_index {
            old(config).spec_restarted()
        } else {
            *old(config)
        },
{
    match sprite.texture_atlas {
        Some(atlas) => {
            if atlas.index < config.last_index {
                let index = next_once(atlas.index, config.last_index);
                sprite.texture_atlas = Some(TextureAtlas { layout: atlas.layout, index });
                config.restart();
            }
        },
        None => {},
    }
}

/// Moves a sparkling animation to a frame picked at random among the others
/// of its range and restarts the frame timer. A sprite without a sheet stays
/// as it is.
pub fn advance_random(config: &mut AnimationConfig, sprite: &mut Sprite)
    requires
        old(config).fps > 0,
        old(config).first_index <= old(config).last_index,
    ensures
        *final(config) == if old(sprite).texture_atlas.is_some() {
            old(config).spec_restarted()
        } else {
            *old(config)
        },
        final(sprite).image == old(sprite).image,
        final(sprite).flip_x == old(sprite).flip_x,
        match old(sprite).texture_atlas {
            Some(atlas) => {
                &&& final(sprite).texture_atlas.is_some()
                &&& final(sprite).texture_atlas.unwrap().layout == atlas.layout
                &&& has_other_frame(old(config).first_index, old(config).last_index, atlas.index)
                    ==> {
                    &&& old(config).first_index <= final(sprite).texture_atlas.unwrap().index
                        <= old(config).last_index
                    &&& final(sprite).texture_atlas.unwrap().index != atlas.index
                }
                &&& !has_other_frame(old(config).first_index, old(config).last_index, atlas.index)
                    ==> final(sprite).texture_atlas.unwrap().index == atlas.index
            },
            None => final(sprite).texture_atlas.is_none(),
        },
{
    match sprite.texture_atlas {
        Some(atlas) => {
            let index = random_other_frame(config.first_index, config.last_index, atlas.index);
            sprite.texture_atlas = Some(TextureAtlas { layout: atlas.layout, index });
            config.restart();
        },
        None => {},
    }
}

} // verus!
