//! The rules of an interactive diorama: a house with a fireplace, a tree, a
//! stereo and light switches, and a character who walks about and uses
//! them.
//!
//! The library holds what the scene decides: which interactable a
//! character is in range of, what an activation sends, how each prop
//! changes state and what it then shows, plays and lights, how the frames
//! of the animations move on, and the parameters with which the lights
//! flicker. It draws nothing and plays nothing: pictures and sounds are
//! named, lengths are integers in thousandths of a pixel, times integers
//! in nanoseconds, and intensities and colour parts integers in
//! thousandths.

pub mod animation;
pub mod chair;
pub mod flickering_light;
pub mod input;
pub mod interaction;
pub mod noise;
pub mod prop;
mod random;
pub mod santa;
pub mod sprite;
pub mod theman;
pub mod timer;
pub mod tree;
