//! The visitor who brings the presents: a scripted animation that plays
//! once, and the messages that start it and that it ends with.

use crate::animation::frame_nanos;
use crate::animation::spec_frame_nanos;
use crate::animation::AnimationConfig;
use crate::sprite::AtlasLayout;
use crate::sprite::Sprite;
use crate::sprite::SpriteImage;
use crate::sprite::TextureAtlas;
use crate::timer::Timer;
use crate::timer::TimerMode;
use vstd::prelude::*;

verus! {

/// The message that asks the tree to show the presents.
#[derive(Clone, Copy, Debug, PartialEq, Eq, Structural)]
pub struct AddPresentsEvent;

/// The message that starts the visit: the character has sat down.
#[derive(Clone, Copy, Debug, PartialEq, Eq, Structural)]
pub struct SantasHereEvent;

/// The frame on which the presents have been laid down. A visit that ends
/// on it adds the presents to the tree.
pub const PRESENTS_FRAME: usize = 27;

/// The last frame of a visit to a tree that has its presents already.
pub const SHORT_VISIT_FRAME: usize = 7;

/// The speed of the visit, in frames per second.
pub const VISIT_FPS: u8 = 6;

/// The visitor.
#[derive(Clone, Copy, Debug, PartialEq, Eq)]
pub struct Santa {
    /// Whether a visit is under way.
    pub running: bool,
    /// What the visitor shows; nothing between visits.
    pub sprite: Option<Sprite>,
    pub config: AnimationConfig,
}

/// How long frame `index` of the visit stays, in nanoseconds. Some frames
/// are held longer than the speed of the animation says.
pub open spec fn spec_visit_frame_nanos(index: usize, fps: u8) -> int {
    if index == 2 {
        500_000_000
    } else if index == 3 {
        750_000_000
    } else if index == 7 || index == 12 {
        2_000_000_000
    } else if 19 <= index < 24 {
        350_000_000
    } else if index == 27 {
        250_000_000
    } else {
        spec_frame_nanos(fps)
    }
}

/// How long frame `index` of the visit stays, in nanoseconds.
pub fn visit_frame_nanos(index: usize, fps: u8) -> (nanos: u64)
    requires
        fps > 0,
    ensures
        nanos == spec_visit_frame_nanos(index, fps),
        nanos > 0,
{
    if index == 2 {
        500_000_000
    } else if index == 3 {
        750_000_000
    } else if index == 7 || index == 12 {
        2_000_000_000
    } else if 19 <= index && index < 24 {
        350_000_000
    } else if index == 27 {
        250_000_000
    } else {
        frame_nanos(fps)
    }
}

/// The one-shot timer of frame `index` of the visit, at its start.
pub open spec fn spec_visit_timer(index: usize, fps: u8) -> Timer {
    Timer::spec_new(spec_visit_frame_nanos(index, fps) as u64, TimerMode::Once)
}

/// The visitor at the start of a visit: the first frame of its sheet, and a
/// range that ends early when the tree has its presents already.
pub open spec fn spec_started(has_presents: bool) -> Santa {
    Santa {
        running: true,
        sprite: Some(
            Sprite {
                image: SpriteImage::SantaAnimation,
                texture_atlas: Some(
                    TextureAtlas { layout: AtlasLayout::SantaAnimation, index: 0 },
                ),
                flip_x: false,
            },
        ),
        config: AnimationConfig::spec_new(
            0,
            if has_presents {
                SHORT_VISIT_FRAME
            } else {
                PRESENTS_FRAME
            },
            VISIT_FPS,
        ),
    }
}

/// The frame that a visit under way shows, if it shows a sheet.
pub open spec fn spec_frame(santa: Santa) -> Option<usize> {
    match santa.sprite {
        Some(sprite) => if santa.running {
            sprite.frame()
        } else {
            None
        },
        None => None,
    }
}

/// Whether the time of a frame being up ends the visit: the visitor shows
/// the last frame of its range, or one beyond it.
pub open spec fn spec_visit_ends(santa: Santa) -> bool {
    match spec_frame(santa) {
        Some(index) => index >= santa.config.last_index,
        None => false,
    }
}

/// Whether the time of a frame being up delivers the presents: the visit
/// ends, and it ends on the frame on which the presents have been laid
/// down.
pub open spec fn spec_delivers(santa: Santa) -> bool {
    spec_visit_ends(santa) && spec_frame(santa) == Some(PRESENTS_FRAME)
}

/// The visitor after the time of its frame is up. Before the last frame of
/// its range it shows the next frame, for the time of that frame. On the
/// last frame the visit ends: the visitor is gone. Without a visit under
/// way, or without a sheet to show, nothing happens.
pub open spec fn spec_after_frame(santa: Santa) -> Santa {
    match spec_frame(santa) {
        Some(index) => if index < santa.config.last_index {
            Santa {
                sprite: Some(santa.sprite.unwrap().with_frame((index + 1) as usize)),
                config: AnimationConfig {
                    frame_timer: spec_visit_timer((index + 1) as usize, santa.config.fps),
                    ..santa.config
                },
                ..santa
            }
        } else {
            Santa {
                running: false,
                sprite: None,
                config: AnimationConfig {
                    frame_timer: spec_visit_timer(index, santa.config.fps),
                    ..santa.config
                },
            }
        },
        None => santa,
    }
}

/// The visitor `delta_nanos` nanoseconds later, and the message for the
/// tree that this brings. Between visits nothing happens. During a visit
/// the frame timer runs, and when it runs out the visit moves on; the
/// message comes from the visit that ends with the presents laid down.
pub open spec fn spec_after_tick(santa: Santa, delta_nanos: u64) -> (
    Santa,
    Option<AddPresentsEvent>,
) {
    if !santa.running {
        (santa, None)
    } else {
        let ticked = Santa { config: santa.config.spec_ticked(delta_nanos), ..santa };
        if ticked.config.frame_timer.just_finished {
            (
                spec_after_frame(ticked),
                if spec_delivers(ticked) {
                    Some(AddPresentsEvent)
                } else {
                    None
                },
            )
        } else {
            (ticked, None)
        }
    }
}

/// Whether the visitor is in sight exactly during a visit.
pub open spec fn spec_in_sight_while_running(santa: Santa) -> bool {
    santa.running == santa.sprite.is_some()
}

/// The visitor is in sight exactly during a visit: that holds at the start
/// of a visit, and the passing of time keeps it so.
pub proof fn lemma_in_sight_while_running(santa: Santa, has_presents: bool, delta_nanos: u64)
    ensures
        spec_in_sight_while_running(spec_started(has_presents)),
        spec_in_sight_while_running(santa) ==> spec_in_sight_while_running(
            spec_after_tick(santa, delta_nanos).0,
        ),
{
}

/// The visitor after the time of `frames` frames has been up, one after the
/// other.
pub open spec fn spec_after_frames(santa: Santa, frames: nat) -> Santa
    decreases frames,
{
    if frames == 0 {
        santa
    } else {
        spec_after_frame(spec_after_frames(santa, (frames - 1) as nat))
    }
}

/// A visit shows its frames in order and ends after the last: after
/// `frames` frames it shows frame `frames`, and on the last frame of its
/// range the next frame ends it. The presents are delivered by the long
/// visit only.
pub proof fn lemma_visit_runs_its_course(has_presents: bool, frames: nat)
    requires
        frames <= spec_started(has_presents).config.last_index,
    ensures
        spec_after_frames(spec_started(has_presents), frames).running,
        spec_frame(spec_after_frames(spec_started(has_presents), frames)) == Some(
            frames as usize,
        ),
        spec_after_frames(spec_started(has_presents), frames).config.last_index == spec_started(
            has_presents,
        ).config.last_index,
        frames == spec_started(has_presents).config.last_index ==> {
            &&& spec_visit_ends(spec_after_frames(spec_started(has_presents), frames))
            &&& spec_delivers(spec_after_frames(spec_started(has_presents), frames))
                == !has_presents
            &&& !spec_after_frame(spec_after_frames(spec_started(has_presents), frames)).running
        },
    decreases frames,
{
    if frames > 0 {
        lemma_visit_runs_its_course(has_presents, (frames - 1) as nat);
    }
}

impl Santa {
    /// The visitor before its first visit: out of sight.
    pub fn new() -> (santa: Santa)
        ensures
            santa == (Santa {
                running: false,
                sprite: None,
                config: AnimationConfig::spec_new(0, PRESENTS_FRAME, 4),
            }),
    {
        Santa { running: false, sprite: None, config: AnimationConfig::new(0, PRESENTS_FRAME, 4) }
    }

    /// Starts a visit. To a tree that has its presents already the visitor
    /// only looks in; else it stays until the presents are laid down.
    pub fn handle_start(&mut self, event: &SantasHereEvent, has_presents: bool)
        ensures
            *final(self) == spec_started(has_presents),
    {
        let last = if has_presents {
            SHORT_VISIT_FRAME
        } else {
            PRESENTS_FRAME
        };
        self.config = AnimationConfig::new(0, last, VISIT_FPS);
        self.sprite = Some(Sprite::sheet(SpriteImage::SantaAnimation, AtlasLayout::SantaAnimation));
        self.running = true;
    }

    /// Whether the visit can be advanced: its speed is not zero.
    pub fn can_animate(&self) -> (able: bool)
        ensures
            able == (self.config.fps > 0),
    {
        self.config.fps > 0
    }

    /// Advances the visit by `delta_nanos` nanoseconds, and hands back the
    /// message for the tree when the visit ends with the presents laid
    /// down.
    pub fn handle_animations(&mut self, delta_nanos: u64) -> (delivered: Option<AddPresentsEvent>)
        requires
            old(self).config.fps > 0,
        ensures
            (*final(self), delivered) == spec_after_tick(*old(self), delta_nanos),
    {
        if !self.running {
            return None;
        }
        let due = self.config.tick(delta_nanos);
        if !due {
            return None;
        }
        match self.sprite {
            Some(sprite) => match sprite.texture_atlas {
                Some(atlas) => {
                    if atlas.index < self.config.last_index {
                        let index = atlas.index + 1;
                        self.sprite = Some(
                            Sprite {
                                texture_atlas: Some(TextureAtlas { layout: atlas.layout, index }),
                                ..sprite
                            },
                        );
                        self.config.frame_timer = Timer::new(
                            visit_frame_nanos(index, self.config.fps),
                            TimerMode::Once,
                        );
                        None
                    } else {
                        self.sprite = None;
                        self.running = false;
                        self.config.frame_timer = Timer::new(
                            visit_frame_nanos(atlas.index, self.config.fps),
                            TimerMode::Once,
                        );
                        if atlas.index == PRESENTS_FRAME {
                            Some(AddPresentsEvent)
                        } else {
                            None
                        }
                    }
                },
                None => None,
            },
            None => None,
        }
    }
}

} // verus!
