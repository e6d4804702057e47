use neko::assets::{
    frame_index, sound_index, sound_path, sound_paths, sprite_path, sprite_paths, NekoAssets, SoundKey,
    SpriteFrameKey, FRAME_COUNT, SOUND_COUNT,
};
use neko::audio::{sound_for_event, sounds_to_play};
use neko::state::NekoSoundEvent;

#[test]
fn sprite_paths_list_every_frame_at_its_slot() {
    let paths = sprite_paths();
    assert_eq!(paths.len(), FRAME_COUNT);
    for (i, (key, path)) in paths.iter().enumerate() {
        assert_eq!(frame_index(*key), i);
        assert_eq!(sprite_path(*key), *path);
    }
    assert_eq!(paths[0], (SpriteFrameKey::Awake, "awake.png"));
    assert_eq!(paths[6], (SpriteFrameKey::Right2, "right2.png"));
    assert_eq!(paths[24], (SpriteFrameKey::Sleep2, "sleep2.png"));
}

#[test]
fn sound_paths_list_every_sound_at_its_slot() {
    let paths = sound_paths();
    assert_eq!(paths.len(), SOUND_COUNT);
    for (i, (key, path)) in paths.iter().enumerate() {
        assert_eq!(sound_index(*key), i);
        assert_eq!(sound_path(*key), *path);
    }
    assert_eq!(sound_path(SoundKey::IdleYawn), "idle3.wav");
    assert_eq!(sound_path(SoundKey::Awake), "awake.wav");
    assert_eq!(sound_path(SoundKey::Sleep), "sleep.wav");
}

#[test]
fn handles_are_found_by_key() {
    let frames: Vec<String> = sprite_paths().iter().map(|(_, p)| p.to_string()).collect();
    let sounds: Vec<String> = sound_paths().iter().map(|(_, p)| p.to_string()).collect();
    let assets = NekoAssets::new(frames, sounds);
    assert_eq!(assets.frame_handle(SpriteFrameKey::UpLeft1), "upleft1.png");
    assert_eq!(assets.frame_handle(SpriteFrameKey::Awake), "awake.png");
    assert_eq!(assets.sound_handle(SoundKey::Sleep), "sleep.wav");
}

#[test]
fn each_cue_has_its_sound() {
    assert_eq!(sound_for_event(NekoSoundEvent::Wake), SoundKey::Awake);
    assert_eq!(sound_for_event(NekoSoundEvent::Sleep), SoundKey::Sleep);
    assert_eq!(sound_for_event(NekoSoundEvent::IdleYawn), SoundKey::IdleYawn);
}

#[test]
fn quiet_mode_plays_nothing() {
    let events = vec![NekoSoundEvent::Wake, NekoSoundEvent::Sleep];
    assert!(sounds_to_play(true, &events).is_empty());
    assert_eq!(sounds_to_play(false, &events), vec![SoundKey::Awake, SoundKey::Sleep]);
}
