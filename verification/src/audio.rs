//! Which sounds to play for the cues a tick raised.
use vstd::prelude::*;

use crate::assets::{SoundKey, sound_file};
use crate::state::NekoSoundEvent;

verus! {

/// The sound of each cue.
pub open spec fn event_sound(event: NekoSoundEvent) -> SoundKey {
    match event {
        NekoSoundEvent::Wake => SoundKey::Awake,
        NekoSoundEvent::Sleep => SoundKey::Sleep,
        NekoSoundEvent::IdleYawn => SoundKey::IdleYawn,
    }
}

/// The audio file each cue is heard from: the wake cue from the awake sound,
/// the sleep cue from the sleep sound, the yawn from the idle sound.
pub open spec fn cue_file(event: NekoSoundEvent) -> Seq<char> {
    match event {
        NekoSoundEvent::Wake => "awake.wav"@,
        NekoSoundEvent::Sleep => "sleep.wav"@,
        NekoSoundEvent::IdleYawn => "idle3.wav"@,
    }
}

/// Each cue plays its own sound, heard from the file named for it.
pub proof fn lemma_cue_sounds(a: NekoSoundEvent, b: NekoSoundEvent)
    ensures
        sound_file(event_sound(a)) == cue_file(a),
        event_sound(a) == event_sound(b) ==> a == b,
{
}

/// The sound of `event`.
pub fn sound_for_event(event: NekoSoundEvent) -> (sound: SoundKey)
    ensures
        sound == event_sound(event),
{
    match event {
        NekoSoundEvent::Wake => SoundKey::Awake,
        NekoSoundEvent::Sleep => SoundKey::Sleep,
        NekoSoundEvent::IdleYawn => SoundKey::IdleYawn,
    }
}

/// The sounds to play, in order, for the cues `events`: none when `quiet`,
/// else the sound of each cue.
pub fn sounds_to_play(quiet: bool, events: &Vec<NekoSoundEvent>) -> (sounds: Vec<SoundKey>)
    ensures
        quiet ==> sounds@.len() == 0,
        !quiet ==> sounds@ == events@.map_values(|e: NekoSoundEvent| event_sound(e)),
{
    let mut sounds: Vec<SoundKey> = Vec::new();
    if quiet {
        return sounds;
    }
    let mut i: usize = 0;
    while i < events.len()
        invariant
            i <= events@.len(),
            sounds@ == events@.take(i as int).map_values(|e: NekoSoundEvent| event_sound(e)),
        decreases events@.len() - i,
    {
        sounds.push(sound_for_event(events[i]));
        proof {
            assert(events@.take(i + 1) =~= events@.take(i as int).push(events@[i as int]));
        }
        i = i + 1;
        proof {
            assert(sounds@ =~= events@.take(i as int).map_values(|e: NekoSoundEvent| event_sound(e)));
        }
    }
    proof {
        assert(events@.take(events@.len() as int) =~= events@);
    }
    sounds
}

} // verus!
