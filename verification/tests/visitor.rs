use diorama::animation::AnimationConfig;
use diorama::santa::visit_frame_nanos;
use diorama::santa::AddPresentsEvent;
use diorama::santa::Santa;
use diorama::santa::SantasHereEvent;
use diorama::santa::PRESENTS_FRAME;
use diorama::santa::SHORT_VISIT_FRAME;
use diorama::santa::VISIT_FPS;
use diorama::sprite::AtlasLayout;
use diorama::sprite::Sprite;
use diorama::sprite::SpriteImage;
use diorama::sprite::TextureAtlas;
use diorama::timer::Timer;
use diorama::timer::TimerMode;
use diorama::tree::Tree;

fn frame(index: usize) -> Option<Sprite> {
    Some(Sprite {
        image: SpriteImage::SantaAnimation,
        texture_atlas: Some(TextureAtlas { layout: AtlasLayout::SantaAnimation, index }),
        flip_x: false,
    })
}

#[test]
fn visit_constants() {
    assert_eq!(PRESENTS_FRAME, 27);
    assert_eq!(SHORT_VISIT_FRAME, 7);
    assert_eq!(VISIT_FPS, 6);
}

#[test]
fn visitor_starts_out_of_sight() {
    let santa = Santa::new();
    assert!(!santa.running);
    assert_eq!(santa.sprite, None);
    assert_eq!(santa.config, AnimationConfig::new(0, 27, 4));
    assert!(santa.can_animate());
}

#[test]
fn nothing_happens_between_visits() {
    let mut santa = Santa::new();
    assert_eq!(santa.handle_animations(10_000_000_000), None);
    assert_eq!(santa, Santa::new());
}

#[test]
fn held_frames() {
    assert_eq!(visit_frame_nanos(0, 6), 166_666_666);
    assert_eq!(visit_frame_nanos(1, 6), 166_666_666);
    assert_eq!(visit_frame_nanos(2, 6), 500_000_000);
    assert_eq!(visit_frame_nanos(3, 6), 750_000_000);
    assert_eq!(visit_frame_nanos(4, 6), 166_666_666);
    assert_eq!(visit_frame_nanos(7, 6), 2_000_000_000);
    assert_eq!(visit_frame_nanos(12, 6), 2_000_000_000);
    assert_eq!(visit_frame_nanos(18, 6), 166_666_666);
    for index in 19..24 {
        assert_eq!(visit_frame_nanos(index, 6), 350_000_000);
    }
    assert_eq!(visit_frame_nanos(24, 6), 166_666_666);
    assert_eq!(visit_frame_nanos(26, 4), 250_000_000);
    assert_eq!(visit_frame_nanos(27, 6), 250_000_000);
    assert_eq!(visit_frame_nanos(28, 10), 100_000_000);
}

#[test]
fn visit_ends_with_the_presents() {
    let mut santa = Santa::new();
    santa.handle_start(&SantasHereEvent, false);
    assert!(santa.running);
    assert_eq!(santa.sprite, frame(0));
    assert_eq!(santa.config, AnimationConfig::new(0, 27, 6));
    for index in 1..=27usize {
        assert_eq!(santa.handle_animations(3_000_000_000), None);
        assert_eq!(santa.sprite, frame(index));
        assert!(santa.running);
        assert_eq!(
            santa.config.frame_timer,
            Timer::new(visit_frame_nanos(index, 6), TimerMode::Once)
        );
    }
    // The time of the last frame is up: the visitor leaves the presents.
    assert_eq!(santa.handle_animations(3_000_000_000), Some(AddPresentsEvent));
    assert!(!santa.running);
    assert_eq!(santa.sprite, None);
    assert_eq!(santa.handle_animations(3_000_000_000), None);
}

#[test]
fn visit_to_a_tree_with_presents_is_short() {
    let mut santa = Santa::new();
    santa.handle_start(&SantasHereEvent, true);
    assert_eq!(santa.config, AnimationConfig::new(0, 7, 6));
    for index in 1..=7usize {
        assert_eq!(santa.handle_animations(3_000_000_000), None);
        assert_eq!(santa.sprite, frame(index));
    }
    assert_eq!(santa.handle_animations(3_000_000_000), None);
    assert!(!santa.running);
    assert_eq!(santa.sprite, None);
}

#[test]
fn visit_keeps_the_time_of_each_frame() {
    let mut santa = Santa::new();
    santa.handle_start(&SantasHereEvent, false);
    // Frame 0 stays a sixth of a second.
    assert_eq!(santa.handle_animations(166_666_665), None);
    assert_eq!(santa.sprite, frame(0));
    santa.handle_animations(1);
    assert_eq!(santa.sprite, frame(1));
    santa.handle_animations(166_666_666);
    assert_eq!(santa.sprite, frame(2));
    // Frame 2 is held for half a second.
    santa.handle_animations(499_999_999);
    assert_eq!(santa.sprite, frame(2));
    santa.handle_animations(1);
    assert_eq!(santa.sprite, frame(3));
    // Frame 3 is held for three quarters of a second.
    santa.handle_animations(749_999_999);
    assert_eq!(santa.sprite, frame(3));
    santa.handle_animations(1);
    assert_eq!(santa.sprite, frame(4));
}

#[test]
fn visit_ends_on_the_presents_frame_only_with_presents() {
    let mut santa = Santa::new();
    santa.handle_start(&SantasHereEvent, false);
    santa.sprite = frame(27);
    assert_eq!(santa.handle_animations(1), None);
    assert!(santa.running);
    assert_eq!(santa.handle_animations(1_000_000_000), Some(AddPresentsEvent));
    assert!(!santa.running);
    assert_eq!(santa.sprite, None);
}

#[test]
fn visit_beyond_its_range_ends_without_presents() {
    let mut santa = Santa::new();
    santa.handle_start(&SantasHereEvent, true);
    santa.sprite = frame(30);
    assert_eq!(santa.handle_animations(1_000_000_000), None);
    assert!(!santa.running);
    assert_eq!(santa.sprite, None);
}

#[test]
fn visitor_without_a_sheet_stays() {
    let mut santa = Santa::new();
    santa.handle_start(&SantasHereEvent, false);
    santa.sprite = Some(Sprite::still(SpriteImage::SantaAnimation));
    assert_eq!(santa.handle_animations(1_000_000_000), None);
    assert!(santa.running);
    assert_eq!(santa.sprite, Some(Sprite::still(SpriteImage::SantaAnimation)));
}

#[test]
fn visit_without_speed_cannot_be_advanced() {
    let mut santa = Santa::new();
    santa.config.fps = 0;
    assert!(!santa.can_animate());
}

#[test]
fn second_visit_finds_the_presents() {
    let mut tree = Tree::new();
    let mut santa = Santa::new();
    santa.handle_start(&SantasHereEvent, tree.presents.has_presents());
    let mut delivered = Vec::new();
    for _ in 0..40 {
        if let Some(event) = santa.handle_animations(3_000_000_000) {
            delivered.push(event);
            assert!(tree.presents.handle_presents_add(&event));
        }
    }
    assert_eq!(delivered, vec![AddPresentsEvent]);
    assert!(tree.presents.has_presents());

    santa.handle_start(&SantasHereEvent, tree.presents.has_presents());
    assert_eq!(santa.config.last_index, 7);
    for _ in 0..40 {
        assert_eq!(santa.handle_animations(3_000_000_000), None);
    }
    assert!(!santa.running);
}
