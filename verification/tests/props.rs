use diorama::animation::AnimationConfig;
use diorama::chair;
use diorama::flickering_light::flicker_parameters;
use diorama::flickering_light::palette;
use diorama::flickering_light::Color;
use diorama::flickering_light::LightKind;
use diorama::interaction::InteractionEvent;
use diorama::interaction::State;
use diorama::prop::animation_config;
use diorama::prop::interactable;
use diorama::prop::interactable_id;
use diorama::prop::Prop;
use diorama::prop::PropKind;
use diorama::prop::Transition;
use diorama::prop::LAST_FRAME;
use diorama::prop::XMAS_LIGHTS;
use diorama::santa::AddPresentsEvent;
use diorama::sprite::AtlasLayout;
use diorama::sprite::AudioAction;
use diorama::sprite::Sound;
use diorama::sprite::Sprite;
use diorama::sprite::SpriteImage;
use diorama::sprite::TextureAtlas;
use diorama::tree::Presents;
use diorama::tree::Tree;

const KINDS: [PropKind; 5] = [
    PropKind::Fireplace,
    PropKind::Stereo,
    PropKind::Tree,
    PropKind::AtticLight,
    PropKind::LightSwitch,
];

fn event(id: &str) -> InteractionEvent {
    InteractionEvent { id: id.to_string() }
}

/// All of a prop that a test can compare.
fn snapshot(prop: &Prop) -> String {
    format!("{:?}", prop)
}

#[test]
fn prop_ids() {
    assert_eq!(interactable_id(PropKind::Fireplace), "fireplace");
    assert_eq!(interactable_id(PropKind::Stereo), "stereo");
    assert_eq!(interactable_id(PropKind::Tree), "tree");
    assert_eq!(interactable_id(PropKind::AtticLight), "attic-light");
    assert_eq!(interactable_id(PropKind::LightSwitch), "light-switch");
    assert_eq!(chair::interactable_id(), "chair");
}

#[test]
fn prop_boxes() {
    let sizes =
        [(48_000, 78_000), (20_000, 16_000), (50_000, 64_000), (2_000, 16_000), (3_000, 4_000)];
    for (kind, size) in KINDS.iter().zip(sizes.iter()) {
        let registered = interactable(*kind);
        assert_eq!((registered.width, registered.height), *size);
        assert_eq!(registered.id, interactable_id(*kind));
    }
    let seat = chair::interactable();
    assert_eq!((seat.width, seat.height, seat.id.as_str()), (17_000, 25_000, "chair"));
}

#[test]
fn props_start_off() {
    for kind in KINDS {
        let prop = Prop::new(kind);
        assert_eq!(prop.kind, kind);
        assert_eq!(prop.id, interactable_id(kind));
        assert_eq!(prop.state, State::Off);
        assert!(!prop.playing);
        assert!(prop.sprite.texture_atlas.is_none());
        assert!(!prop.sprite.flip_x);
        for entry in prop.lights.iter() {
            assert_eq!(entry.light.intensity, 0);
            assert!(entry.light.flicker.is_none());
            assert_eq!(entry.light.color, palette(entry.kind)[0]);
        }
    }
    assert_eq!(Prop::new(PropKind::Fireplace).sprite.image, SpriteImage::FireplaceOff);
    assert_eq!(Prop::new(PropKind::Stereo).sprite.image, SpriteImage::StereoOff);
    assert_eq!(Prop::new(PropKind::Tree).sprite.image, SpriteImage::TreeOff);
    assert_eq!(Prop::new(PropKind::AtticLight).sprite.image, SpriteImage::Blank);
    assert_eq!(Prop::new(PropKind::LightSwitch).sprite.image, SpriteImage::SwitchOff);
}

#[test]
fn lights_of_each_prop() {
    let kinds = |prop: &Prop| prop.lights.iter().map(|l| l.kind).collect::<Vec<LightKind>>();
    assert_eq!(kinds(&Prop::new(PropKind::Fireplace)), vec![LightKind::Fireplace]);
    assert_eq!(kinds(&Prop::new(PropKind::Stereo)), Vec::new());
    assert_eq!(kinds(&Prop::new(PropKind::Tree)), vec![LightKind::Tree]);
    assert_eq!(kinds(&Prop::new(PropKind::AtticLight)), vec![LightKind::AtticLamp]);
    let switch = kinds(&Prop::new(PropKind::LightSwitch));
    assert_eq!(XMAS_LIGHTS, 40);
    assert_eq!(switch.len(), 41);
    assert_eq!(switch[0], LightKind::HouseAttic);
    assert_eq!(switch[1], LightKind::XmasYellow);
    assert_eq!(switch[2], LightKind::XmasGreen);
    assert_eq!(switch[3], LightKind::XmasRed);
    assert_eq!(switch[4], LightKind::XmasYellow);
    assert_eq!(switch[40], LightKind::XmasYellow);
    for point in 0..40usize {
        let expected = match point % 3 {
            0 => LightKind::XmasYellow,
            1 => LightKind::XmasGreen,
            _ => LightKind::XmasRed,
        };
        assert_eq!(switch[point + 1], expected);
    }
}

#[test]
fn fireplace_turns_on_and_off() {
    let mut prop = Prop::new(PropKind::Fireplace);
    assert_eq!(prop.state, State::Off);

    // A matching event: on, with the running picture and the light flickering.
    let turned = prop.handle_interaction(&event("fireplace"));
    assert_eq!(
        turned,
        Some(Transition { state: State::On, audio: Some(AudioAction::Play), sound: None })
    );
    assert_eq!(prop.state, State::On);
    assert_eq!(
        prop.sprite,
        Sprite {
            image: SpriteImage::FireplaceRunning,
            texture_atlas: Some(TextureAtlas { layout: AtlasLayout::FireplaceRunning, index: 0 }),
            flip_x: false,
        }
    );
    assert!(prop.playing);
    assert_eq!(prop.lights.len(), 1);
    let attached = prop.lights[0].light.flicker.clone().expect("parameters are attached");
    let expected = flicker_parameters(LightKind::Fireplace, attached.seed, attached.time_offset);
    assert_eq!(format!("{:?}", attached), format!("{:?}", expected));
    assert!((0..1_000_000).contains(&attached.seed));
    assert!((0..100_000).contains(&attached.time_offset));

    // The flicker writes a sample while the fire burns.
    prop.write_sample(0, 820, Color { red: 1000, green: 610, blue: 190 });
    assert_eq!(prop.lights[0].light.intensity, 820);
    assert_eq!(prop.lights[0].light.color, Color { red: 1000, green: 610, blue: 190 });
    assert_eq!(prop.state, State::On);

    // A second matching event: off, parameters gone, light dark.
    let turned = prop.handle_interaction(&event("fireplace"));
    assert_eq!(
        turned,
        Some(Transition { state: State::Off, audio: Some(AudioAction::Pause), sound: None })
    );
    assert_eq!(prop.state, State::Off);
    assert_eq!(prop.sprite, Sprite::still(SpriteImage::FireplaceOff));
    assert!(!prop.playing);
    assert!(prop.lights[0].light.flicker.is_none());
    assert_eq!(prop.lights[0].light.intensity, 0);

    // The next sample finds nothing to drive: the light reads zero.
    let dark = snapshot(&prop);
    prop.write_sample(0, 500, Color { red: 1, green: 2, blue: 3 });
    assert_eq!(snapshot(&prop), dark);
    assert_eq!(prop.lights[0].light.intensity, 0);
    assert_eq!(prop.lights[0].light.color, Color { red: 1000, green: 610, blue: 190 });
}

#[test]
fn event_with_another_id_changes_nothing() {
    for kind in KINDS {
        let mut prop = Prop::new(kind);
        let before = snapshot(&prop);
        assert_eq!(prop.handle_interaction(&event("chair")), None);
        assert_eq!(prop.handle_interaction(&event("")), None);
        assert_eq!(prop.handle_interaction(&event("Fireplace")), None);
        assert_eq!(prop.handle_interaction(&event("fireplace ")), None);
        assert_eq!(snapshot(&prop), before);

        // Nor does it while the prop is on.
        let own = interactable_id(kind);
        assert!(prop.handle_interaction(&event(&own)).is_some());
        let lit = snapshot(&prop);
        assert_eq!(prop.handle_interaction(&event("chair")), None);
        assert_eq!(snapshot(&prop), lit);
        assert_eq!(prop.state, State::On);
    }
}

#[test]
fn props_do_not_answer_each_other() {
    let mut props: Vec<Prop> = KINDS.iter().map(|kind| Prop::new(*kind)).collect();
    for prop in props.iter_mut() {
        prop.handle_interaction(&event("tree"));
    }
    for prop in props.iter() {
        let expected = if prop.kind == PropKind::Tree { State::On } else { State::Off };
        assert_eq!(prop.state, expected);
    }
}

#[test]
fn stereo_plays_while_on() {
    let mut prop = Prop::new(PropKind::Stereo);
    let turned = prop.handle_interaction(&event("stereo"));
    assert_eq!(
        turned,
        Some(Transition { state: State::On, audio: Some(AudioAction::Play), sound: None })
    );
    assert!(prop.playing);
    assert_eq!(prop.sprite, Sprite::sheet(SpriteImage::StereoRunning, AtlasLayout::StereoRunning));
    assert!(prop.lights.is_empty());
    let turned = prop.handle_interaction(&event("stereo"));
    assert_eq!(
        turned,
        Some(Transition { state: State::Off, audio: Some(AudioAction::Pause), sound: None })
    );
    assert!(!prop.playing);
    assert_eq!(prop.sprite, Sprite::still(SpriteImage::StereoOff));
}

#[test]
fn tree_lights_up_in_silence() {
    let mut prop = Prop::new(PropKind::Tree);
    let turned = prop.handle_interaction(&event("tree"));
    assert_eq!(turned, Some(Transition { state: State::On, audio: None, sound: None }));
    assert!(!prop.playing);
    assert_eq!(prop.sprite, Sprite::sheet(SpriteImage::TreeOn, AtlasLayout::TreeOn));
    let attached = prop.lights[0].light.flicker.clone().unwrap();
    assert_eq!(attached.intensity_octaves, 3);
    assert_eq!(attached.colors, palette(LightKind::Tree));
    let turned = prop.handle_interaction(&event("tree"));
    assert_eq!(turned, Some(Transition { state: State::Off, audio: None, sound: None }));
    assert_eq!(prop.sprite, Sprite::still(SpriteImage::TreeOff));
    assert!(prop.lights[0].light.flicker.is_none());
}

#[test]
fn attic_switch_clicks() {
    let mut prop = Prop::new(PropKind::AtticLight);
    let turned = prop.handle_interaction(&event("attic-light"));
    assert_eq!(
        turned,
        Some(Transition { state: State::On, audio: None, sound: Some(Sound::SwitchOn) })
    );
    assert_eq!(prop.sprite, Sprite::still(SpriteImage::Blank));
    assert_eq!(prop.lights[0].light.flicker.clone().unwrap().intensity_min, 400);
    let turned = prop.handle_interaction(&event("attic-light"));
    assert_eq!(
        turned,
        Some(Transition { state: State::Off, audio: None, sound: Some(Sound::SwitchOff) })
    );
    assert_eq!(prop.sprite, Sprite::still(SpriteImage::Blank));
    assert!(prop.lights[0].light.flicker.is_none());
    assert_eq!(prop.lights[0].light.intensity, 0);
}

#[test]
fn light_switch_lights_every_light() {
    let mut prop = Prop::new(PropKind::LightSwitch);
    let kinds: Vec<LightKind> = prop.lights.iter().map(|l| l.kind).collect();
    let turned = prop.handle_interaction(&event("light-switch"));
    assert_eq!(
        turned,
        Some(Transition { state: State::On, audio: None, sound: Some(Sound::SwitchOn) })
    );
    assert_eq!(prop.sprite, Sprite::still(SpriteImage::SwitchOn));
    assert_eq!(prop.lights.len(), 41);
    for (entry, kind) in prop.lights.iter_mut().zip(kinds.iter()) {
        assert_eq!(entry.kind, *kind);
        let attached = entry.light.flicker.clone().expect("every light is lit");
        let expected = flicker_parameters(*kind, attached.seed, attached.time_offset);
        assert_eq!(format!("{:?}", attached), format!("{:?}", expected));
        entry.light.write_sample(150, palette(*kind)[1]);
    }
    prop.write_sample(40, 175, palette(LightKind::XmasYellow)[2]);
    assert_eq!(prop.lights[40].light.intensity, 175);
    assert_eq!(prop.lights[39].light.intensity, 150);
    prop.write_sample(40, 150, palette(LightKind::XmasYellow)[1]);
    assert_eq!(prop.lights[0].light.flicker.clone().unwrap().intensity_min, 300);

    let turned = prop.handle_interaction(&event("light-switch"));
    assert_eq!(
        turned,
        Some(Transition { state: State::Off, audio: None, sound: Some(Sound::SwitchOff) })
    );
    assert_eq!(prop.sprite, Sprite::still(SpriteImage::SwitchOff));
    for (entry, kind) in prop.lights.iter().zip(kinds.iter()) {
        assert_eq!(entry.kind, *kind);
        assert!(entry.light.flicker.is_none());
        assert_eq!(entry.light.intensity, 0);
        assert_eq!(entry.light.color, palette(*kind)[1]);
    }
}

#[test]
fn lights_lit_together_get_their_own_seeds() {
    let mut prop = Prop::new(PropKind::LightSwitch);
    prop.handle_interaction(&event("light-switch"));
    let mut seeds: Vec<i32> =
        prop.lights.iter().map(|l| l.light.flicker.clone().unwrap().seed).collect();
    seeds.sort();
    seeds.dedup();
    assert!(seeds.len() > 1);
}

#[test]
fn turning_on_keeps_the_mirroring() {
    let mut prop = Prop::new(PropKind::Fireplace);
    prop.sprite.flip_x = true;
    prop.handle_interaction(&event("fireplace"));
    assert!(prop.sprite.flip_x);
    prop.handle_interaction(&event("fireplace"));
    assert!(prop.sprite.flip_x);
}

#[test]
fn entry_sprites_and_transitions() {
    assert_eq!(
        Prop::entry_sprite(PropKind::Tree, State::On, true),
        Sprite {
            image: SpriteImage::TreeOn,
            texture_atlas: Some(TextureAtlas { layout: AtlasLayout::TreeOn, index: 0 }),
            flip_x: true,
        }
    );
    assert_eq!(
        Prop::entry_sprite(PropKind::LightSwitch, State::On, false),
        Sprite::still(SpriteImage::SwitchOn)
    );
    assert_eq!(
        Prop::entry_sprite(PropKind::AtticLight, State::On, false),
        Sprite::still(SpriteImage::Blank)
    );
    assert_eq!(
        Prop::transition(PropKind::Fireplace, State::Off),
        Transition { state: State::Off, audio: Some(AudioAction::Pause), sound: None }
    );
    assert_eq!(
        Prop::transition(PropKind::LightSwitch, State::On),
        Transition { state: State::On, audio: None, sound: Some(Sound::SwitchOn) }
    );
}

#[test]
fn animated_props_have_five_frames() {
    assert_eq!(LAST_FRAME, 4);
    let speeds = [Some(6u8), Some(4), Some(2), None, None];
    for (kind, speed) in KINDS.iter().zip(speeds.iter()) {
        let config = animation_config(*kind);
        assert_eq!(config.as_ref().map(|c| c.fps), *speed);
        if let Some(config) = config {
            assert_eq!((config.first_index, config.last_index), (0, 4));
        }
        let prop = Prop::new(*kind);
        assert_eq!(prop.config, speed.map(|fps| AnimationConfig::new(0, 4, fps)));
        assert_eq!(prop.config, animation_config(*kind));
        assert!(prop.can_animate());
    }
}

#[test]
fn prop_that_cannot_move_on_says_so() {
    let mut prop = Prop::new(PropKind::Stereo);
    prop.handle_interaction(&event("stereo"));
    assert!(prop.can_animate());
    prop.sprite.texture_atlas =
        Some(TextureAtlas { layout: AtlasLayout::StereoRunning, index: usize::MAX });
    assert!(!prop.can_animate());
    prop.sprite.texture_atlas = None;
    assert!(prop.can_animate());
    if let Some(config) = prop.config.as_mut() {
        config.first_index = 5;
    }
    assert!(!prop.can_animate());
    if let Some(config) = prop.config.as_mut() {
        config.first_index = 0;
        config.fps = 0;
    }
    assert!(!prop.can_animate());
    prop.config = None;
    assert!(prop.can_animate());
}

#[test]
fn prop_that_is_off_is_not_animated() {
    let mut prop = Prop::new(PropKind::Stereo);
    let before = snapshot(&prop);
    prop.handle_animations(10_000_000_000);
    assert_eq!(snapshot(&prop), before);
    // The timer was not advanced: once on, a whole frame has yet to pass.
    prop.handle_interaction(&event("stereo"));
    prop.handle_animations(249_999_999);
    assert_eq!(prop.sprite.texture_atlas.unwrap().index, 0);
    prop.handle_animations(1);
    assert_eq!(prop.sprite.texture_atlas.unwrap().index, 1);
}

#[test]
fn turning_on_starts_the_first_frame_anew() {
    let mut prop = Prop::new(PropKind::Stereo);
    prop.handle_interaction(&event("stereo"));
    prop.handle_animations(250_000_000);
    prop.handle_animations(200_000_000);
    assert_eq!(prop.sprite.texture_atlas.unwrap().index, 1);
    // Off and on again: the first frame is back, for its whole time.
    prop.handle_interaction(&event("stereo"));
    prop.handle_interaction(&event("stereo"));
    assert_eq!(prop.sprite.texture_atlas.unwrap().index, 0);
    assert_eq!(prop.config, Some(AnimationConfig::new(0, 4, 4)));
    prop.handle_animations(200_000_000);
    assert_eq!(prop.sprite.texture_atlas.unwrap().index, 0);
    prop.handle_animations(50_000_000);
    assert_eq!(prop.sprite.texture_atlas.unwrap().index, 1);
}

#[test]
fn stereo_steps_through_its_frames() {
    let mut prop = Prop::new(PropKind::Stereo);
    prop.handle_interaction(&event("stereo"));
    let mut shown = Vec::new();
    for _ in 0..7 {
        prop.handle_animations(125_000_000);
        shown.push(prop.sprite.texture_atlas.unwrap().index);
        prop.handle_animations(125_000_000);
        shown.push(prop.sprite.texture_atlas.unwrap().index);
    }
    assert_eq!(shown, vec![0, 1, 1, 2, 2, 3, 3, 4, 4, 0, 0, 1, 1, 2]);
    assert_eq!(prop.sprite.image, SpriteImage::StereoRunning);
    assert_eq!(prop.state, State::On);
    assert!(prop.playing);
}

#[test]
fn fire_jumps_between_its_frames() {
    for kind in [PropKind::Fireplace, PropKind::Tree] {
        let mut prop = Prop::new(kind);
        prop.handle_interaction(&event(&interactable_id(kind)));
        let mut seen = [false; 5];
        for _ in 0..200 {
            let before = prop.sprite.texture_atlas.unwrap().index;
            prop.handle_animations(1_000);
            assert_eq!(prop.sprite.texture_atlas.unwrap().index, before);
            prop.handle_animations(1_000_000_000);
            let after = prop.sprite.texture_atlas.unwrap().index;
            assert!(after <= 4);
            assert_ne!(after, before);
            seen[after] = true;
        }
        assert_eq!(seen, [true; 5]);
        assert_eq!(prop.lights.len(), 1);
        assert!(prop.lights[0].light.flicker.is_some());
    }
}

#[test]
fn switches_are_not_animated() {
    for kind in [PropKind::AtticLight, PropKind::LightSwitch] {
        let mut prop = Prop::new(kind);
        prop.handle_interaction(&event(&interactable_id(kind)));
        let before = snapshot(&prop);
        prop.handle_animations(10_000_000_000);
        prop.advance_frame(true);
        assert_eq!(snapshot(&prop), before);
    }
}

#[test]
fn frame_moves_only_when_due() {
    let mut prop = Prop::new(PropKind::Stereo);
    prop.handle_interaction(&event("stereo"));
    prop.advance_frame(false);
    assert_eq!(prop.sprite.texture_atlas.unwrap().index, 0);
    prop.advance_frame(true);
    assert_eq!(prop.sprite.texture_atlas.unwrap().index, 1);
    prop.handle_interaction(&event("stereo"));
    prop.advance_frame(true);
    assert_eq!(prop.sprite, Sprite::still(SpriteImage::StereoOff));
}

#[test]
fn presents_are_laid_down_once() {
    let mut tree = Tree::new();
    assert_eq!(tree.prop.kind, PropKind::Tree);
    assert_eq!(tree.prop.state, State::Off);
    assert_eq!(tree.presents, Presents::new());
    assert!(!tree.presents.has_presents());
    assert!(tree.presents.handle_presents_add(&AddPresentsEvent));
    assert!(tree.presents.has_presents());
    assert_eq!(tree.presents.sprite, Some(Sprite::still(SpriteImage::Presents)));
    assert!(!tree.presents.handle_presents_add(&AddPresentsEvent));
    assert_eq!(tree.presents.sprite, Some(Sprite::still(SpriteImage::Presents)));
    // The presents do not touch the state of the tree.
    assert_eq!(tree.prop.state, State::Off);
    tree.prop.handle_interaction(&event("tree"));
    assert_eq!(tree.prop.state, State::On);
    assert!(tree.presents.has_presents());
}
