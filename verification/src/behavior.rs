//! One fixed tick of the cat's behaviour: idle progression, chasing, timing
//! and the sound cues that transitions raise. Geometry that works on screen
//! coordinates (distances, angles, window movement) is measured by the caller
//! and handed in as plain values.
use vstd::prelude::*;

use crate::assets::{SpriteBase, SpriteFrameKey};
use crate::config::LOGICAL_WINDOW_SIZE;
use crate::state::{Direction, NekoSoundEvent, NekoState, direction_sprite, frame_matches};

verus! {

/// The animation family of idle stage `stage`.
pub open spec fn idle_sprite(stage: int) -> SpriteBase {
    if 0 <= stage <= 3 {
        SpriteBase::Awake
    } else if 4 <= stage <= 6 {
        SpriteBase::Scratch
    } else if 7 <= stage <= 9 {
        SpriteBase::Wash
    } else if 10 <= stage <= 12 {
        SpriteBase::Yawn
    } else {
        SpriteBase::Sleep
    }
}

/// The poses of the idle progression, in the order the cat goes through them.
pub open spec fn idle_poses() -> Seq<SpriteBase> {
    seq![SpriteBase::Awake, SpriteBase::Scratch, SpriteBase::Wash, SpriteBase::Yawn, SpriteBase::Sleep]
}

/// Which pose of the progression idle stage `stage` shows: stages go by in
/// bands of three (1..=3, 4..=6, 7..=9, 10..=12), and every stage from 13 on
/// is the last band; stage 0, the chasing cat coming to rest, shows the first.
pub open spec fn idle_band(stage: int) -> int {
    let band = if stage <= 1 { 0 } else { (stage - 1) / 3 };
    if band > 4 { 4 } else { band }
}

/// Each idle stage shows the pose of its band: awake, then scratching, then
/// washing, then yawning, then asleep; the five poses are all different.
pub proof fn lemma_idle_pose_bands(stage: int, other: int)
    requires
        stage >= 0,
        other >= 0,
    ensures
        idle_sprite(stage) == idle_poses()[idle_band(stage)],
        idle_band(stage) != idle_band(other) ==> idle_sprite(stage) != idle_sprite(other),
{
}

/// The state after an idle tick: a chasing cat (stage 0) enters stage 1, the
/// sprite follows the stage, and the yawning stages use the slow timing.
pub open spec fn idle_update(s: NekoState) -> NekoState {
    let yawning = 10 <= s.state <= 12;
    NekoState {
        state: if s.state == 0 { 1 } else { s.state },
        sprite_base: idle_sprite(s.state as int),
        min: if yawning { 32 } else { s.min },
        max: if yawning { 64 } else { s.max },
        ..s
    }
}

/// The state after a chasing tick towards `direction`: back to stage 0 with
/// chase timing and the running sprite of that direction.
pub open spec fn chase_update(s: NekoState, direction: Direction) -> NekoState {
    NekoState { state: 0, min: 8, max: 16, sprite_base: direction_sprite(direction), ..s }
}

/// Idle behaviour: show the pose of the current idle stage.
pub fn stay_idle(state: &mut NekoState)
    ensures
        *final(state) == idle_update(*old(state)),
{
    match state.state {
        0 | 1 | 2 | 3 => {
            if state.state == 0 {
                state.state = 1;
            }
            state.sprite_base = SpriteBase::Awake;
        },
        4 | 5 | 6 => {
            state.sprite_base = SpriteBase::Scratch;
        },
        7 | 8 | 9 => {
            state.sprite_base = SpriteBase::Wash;
        },
        10 | 11 | 12 => {
            state.min = 32;
            state.max = 64;
            state.sprite_base = SpriteBase::Yawn;
        },
        _ => {
            state.sprite_base = SpriteBase::Sleep;
        },
    }
}

/// Chasing behaviour: reset the idle progression and its timing and show the
/// running sprite of `direction`. The window itself is moved by the caller,
/// one step in `direction` (see `Direction::step_signs`).
pub fn catch_cursor(state: &mut NekoState, direction: Direction)
    ensures
        *final(state) == chase_update(*old(state), direction),
{
    state.state = 0;
    state.min = 8;
    state.max = 16;
    state.sprite_base = direction.sprite_base();
}

/// What a tick asks of the caller besides the new state.
pub struct StepOutcome {
    /// The sound cues raised by the tick, in the order they were raised.
    pub sounds: Vec<NekoSoundEvent>,
    /// The direction in which to move the window by one step, if the cat chases.
    pub movement: Option<Direction>,
}

/// Whether a tick stays idle: the cursor is within reach, or the cat waits.
pub open spec fn tick_is_idle(s: NekoState, distance: i32) -> bool {
    distance < LOGICAL_WINDOW_SIZE || s.waiting
}

/// The state after the idle or chase part of a tick, before the stage timer
/// is checked.
pub open spec fn tick_moved(s: NekoState, distance: i32, left_click: bool, direction: Direction) -> NekoState {
    let counted = NekoState { count: (s.count + 1) as i32, distance: distance, ..s };
    if tick_is_idle(s, distance) {
        let idle = idle_update(counted);
        NekoState { waiting: if left_click { !idle.waiting } else { idle.waiting }, ..idle }
    } else {
        chase_update(counted, direction)
    }
}

/// Whether the stage timer runs out in this tick.
pub open spec fn tick_rolls_over(s: NekoState, distance: i32, left_click: bool, direction: Direction) -> bool {
    let m = tick_moved(s, distance, left_click, direction);
    m.count > m.max
}

/// Whether this tick moves the idle progression to its next stage.
pub open spec fn tick_advances(s: NekoState, distance: i32, left_click: bool, direction: Direction) -> bool {
    tick_rolls_over(s, distance, left_click, direction) && tick_moved(s, distance, left_click, direction).state > 0
}

/// The arithmetic of a tick stays within `i32`.
pub open spec fn tick_fits(s: NekoState, distance: i32, left_click: bool, direction: Direction) -> bool {
    &&& s.count < i32::MAX
    &&& tick_advances(s, distance, left_click, direction) ==> tick_moved(s, distance, left_click, direction).state < i32::MAX
}

/// The state at the end of a tick.
pub open spec fn tick_state(s: NekoState, distance: i32, left_click: bool, direction: Direction) -> NekoState {
    let m = tick_moved(s, distance, left_click, direction);
    if tick_rolls_over(s, distance, left_click, direction) {
        NekoState {
            count: 0,
            state: if m.state > 0 { (m.state + 1) as i32 } else { m.state },
            ..m
        }
    } else {
        m
    }
}

/// The yawn cue: the yawning stage reaches its frame switch.
pub open spec fn tick_yawns(s: NekoState) -> bool {
    s.state == 10 && s.count + 1 == s.min
}

/// The wake cue: a sleeping cat starts chasing.
pub open spec fn tick_wakes(s: NekoState, distance: i32) -> bool {
    !tick_is_idle(s, distance) && s.state >= 13
}

/// The sleep cue: the progression enters the first sleeping stage.
pub open spec fn tick_falls_asleep(s: NekoState, distance: i32, left_click: bool, direction: Direction) -> bool {
    tick_advances(s, distance, left_click, direction) && tick_moved(s, distance, left_click, direction).state + 1 == 13
}

/// The sound cues of a tick, in order: yawn, wake, sleep.
pub open spec fn tick_sounds(s: NekoState, distance: i32, left_click: bool, direction: Direction) -> Seq<NekoSoundEvent> {
    (if tick_yawns(s) { seq![NekoSoundEvent::IdleYawn] } else { Seq::empty() })
        + (if tick_wakes(s, distance) { seq![NekoSoundEvent::Wake] } else { Seq::empty() })
        + (if tick_falls_asleep(s, distance, left_click, direction) { seq![NekoSoundEvent::Sleep] } else { Seq::empty() })
}

/// One fixed tick of the cat. `distance` is the Manhattan distance in logical
/// pixels from the window centre to the cursor, `left_click` whether the left
/// button was just pressed, and `direction` the sector of the cursor as seen
/// from the window centre.
pub fn behavior_step(
    state: &mut NekoState,
    distance: i32,
    left_click: bool,
    direction: Direction,
) -> (outcome: StepOutcome)
    requires
        tick_fits(*old(state), distance, left_click, direction),
    ensures
        *final(state) == tick_state(*old(state), distance, left_click, direction),
        outcome.sounds@ == tick_sounds(*old(state), distance, left_click, direction),
        outcome.movement == (if tick_is_idle(*old(state), distance) {
            None
        } else {
            Some(direction)
        }),
{
    let ghost s0 = *state;
    let mut sounds: Vec<NekoSoundEvent> = Vec::new();
    let mut movement: Option<Direction> = None;

    state.count = state.count + 1;

    if state.state == 10 && state.count == state.min {
        sounds.push(NekoSoundEvent::IdleYawn);
    }

    state.distance = distance;

    if state.distance < LOGICAL_WINDOW_SIZE || state.waiting {
        stay_idle(state);

        if left_click {
            state.waiting = !state.waiting;
        }
    } else {
        if state.state >= 13 {
            sounds.push(NekoSoundEvent::Wake);
        }

        catch_cursor(state, direction);
        movement = Some(direction);
    }

    let ghost after_yawn_wake = sounds@;

    if state.count > state.max {
        state.count = 0;

        if state.state > 0 {
            state.state = state.state + 1;

            if state.state == 13 {
                sounds.push(NekoSoundEvent::Sleep);
            }
        }
    }

    proof {
        assert(sounds@ =~= tick_sounds(s0, distance, left_click, direction));
    }
    StepOutcome { sounds, movement }
}

impl NekoState {
    /// The frame to draw when it differs from the last one drawn: records it
    /// as drawn and returns it; returns `None` when nothing changed.
    pub fn next_frame_change(&mut self) -> (change: Option<SpriteFrameKey>)
        ensures
            final(self).waiting == old(self).waiting,
            final(self).distance == old(self).distance,
            final(self).count == old(self).count,
            final(self).min == old(self).min,
            final(self).max == old(self).max,
            final(self).state == old(self).state,
            final(self).current_direction == old(self).current_direction,
            final(self).sprite_base == old(self).sprite_base,
            forall|frame: SpriteFrameKey|
                frame_matches(frame, old(self).sprite_base, old(self).count as int, old(self).min as int) ==> {
                    &&& final(self).last_frame == Some(frame)
                    &&& change == (if old(self).last_frame == Some(frame) { None } else { Some(frame) })
                },
    {
        let frame = self.current_frame();
        let unchanged = match self.last_frame {
            Some(last) => last == frame,
            None => false,
        };
        if unchanged {
            return None;
        }
        self.last_frame = Some(frame);
        Some(frame)
    }
}

/// A well-timed cat whose idle stage is below `i32::MAX` can always tick.
pub proof fn lemma_well_timed_tick_fits(s: NekoState, distance: i32, left_click: bool, direction: Direction)
    requires
        s.well_timed(),
        s.state < i32::MAX,
    ensures
        tick_fits(s, distance, left_click, direction),
{
}

/// Every tick keeps the cat well timed: the stage timing stays one of the two
/// the cat uses and the tick counter never passes the end of the stage.
pub proof fn lemma_tick_keeps_timing(s: NekoState, distance: i32, left_click: bool, direction: Direction)
    requires
        s.well_timed(),
        tick_fits(s, distance, left_click, direction),
    ensures
        tick_state(s, distance, left_click, direction).well_timed(),
{
}

/// A chasing tick moves the window towards the cursor, resets the idle
/// progression to stage 0 with chase timing, shows the running sprite of its
/// direction and leaves the waiting mode alone.
pub proof fn lemma_chase_resets(s: NekoState, distance: i32, left_click: bool, direction: Direction)
    requires
        !tick_is_idle(s, distance),
    ensures
        ({
            let t = tick_state(s, distance, left_click, direction);
            &&& t.state == 0
            &&& t.min == 8
            &&& t.max == 16
            &&& t.sprite_base == direction_sprite(direction)
            &&& t.waiting == s.waiting
        }),
{
}

/// The waiting mode changes exactly on a left click during an idle tick.
pub proof fn lemma_waiting_toggles_on_idle_click(s: NekoState, distance: i32, left_click: bool, direction: Direction)
    ensures
        tick_state(s, distance, left_click, direction).waiting != s.waiting
            <==> tick_is_idle(s, distance) && left_click,
{
}

/// An idle tick shows the pose of the current stage and either stays in it
/// or moves on to the next one; a chasing cat (stage 0) enters stage 1.
pub proof fn lemma_idle_progresses(s: NekoState, distance: i32, left_click: bool, direction: Direction)
    requires
        tick_is_idle(s, distance),
        s.state >= 0,
        tick_fits(s, distance, left_click, direction),
    ensures
        ({
            let t = tick_state(s, distance, left_click, direction);
            let stage = if s.state == 0 { 1 } else { s.state as int };
            &&& t.sprite_base == idle_sprite(s.state as int)
            &&& t.state == stage || t.state == stage + 1
        }),
{
}

/// A sleeping cat keeps sleeping as long as it stays idle.
pub proof fn lemma_sleep_persists_while_idle(s: NekoState, distance: i32, left_click: bool, direction: Direction)
    requires
        tick_is_idle(s, distance),
        s.state >= 13,
        tick_fits(s, distance, left_click, direction),
    ensures
        tick_state(s, distance, left_click, direction).state >= 13,
        tick_state(s, distance, left_click, direction).sprite_base == SpriteBase::Sleep,
{
}

/// The sleep cue sounds exactly when the last yawning stage gives way to the
/// first sleeping one.
pub proof fn lemma_sleep_cue(s: NekoState, distance: i32, left_click: bool, direction: Direction)
    requires
        tick_fits(s, distance, left_click, direction),
    ensures
        tick_sounds(s, distance, left_click, direction).contains(NekoSoundEvent::Sleep)
            <==> s.state == 12 && tick_state(s, distance, left_click, direction).state == 13,
{
    let sounds = tick_sounds(s, distance, left_click, direction);
    if tick_falls_asleep(s, distance, left_click, direction) {
        assert(sounds[sounds.len() - 1] == NekoSoundEvent::Sleep);
    }
}

/// The wake cue sounds exactly when a sleeping cat starts chasing.
pub proof fn lemma_wake_cue(s: NekoState, distance: i32, left_click: bool, direction: Direction)
    requires
        tick_fits(s, distance, left_click, direction),
    ensures
        tick_sounds(s, distance, left_click, direction).contains(NekoSoundEvent::Wake)
            <==> s.state >= 13 && !tick_is_idle(s, distance),
        tick_wakes(s, distance) ==> tick_state(s, distance, left_click, direction).state == 0,
{
    let sounds = tick_sounds(s, distance, left_click, direction);
    if tick_wakes(s, distance) {
        assert(!tick_yawns(s));
        assert(sounds[0] == NekoSoundEvent::Wake);
    }
}

/// A tick raises at most one sound cue.
pub proof fn lemma_at_most_one_cue(s: NekoState, distance: i32, left_click: bool, direction: Direction)
    ensures
        tick_sounds(s, distance, left_click, direction).len() <= 1,
{
}

/// The yawn cue sounds exactly on the tick whose counter reaches the frame
/// switch of the yawning stage: the counter was below it and reaches it.
pub proof fn lemma_yawn_cue_on_reaching_switch(s: NekoState, distance: i32, left_click: bool, direction: Direction)
    ensures
        tick_sounds(s, distance, left_click, direction).contains(NekoSoundEvent::IdleYawn)
            <==> s.state == 10 && s.count < s.min && s.min <= s.count + 1,
{
    let sounds = tick_sounds(s, distance, left_click, direction);
    if tick_yawns(s) {
        assert(sounds[0] == NekoSoundEvent::IdleYawn);
    }
}

/// Two consecutive ticks of a well-timed cat never both yawn.
pub proof fn lemma_no_yawn_twice_in_a_row(
    s: NekoState,
    distance: i32,
    left_click: bool,
    direction: Direction,
    next_distance: i32,
    next_left_click: bool,
    next_direction: Direction,
)
    requires
        s.well_timed(),
        tick_fits(s, distance, left_click, direction),
        tick_sounds(s, distance, left_click, direction).contains(NekoSoundEvent::IdleYawn),
    ensures
        !tick_sounds(tick_state(s, distance, left_click, direction), next_distance, next_left_click, next_direction)
            .contains(NekoSoundEvent::IdleYawn),
{
    lemma_yawn_cue_on_reaching_switch(s, distance, left_click, direction);
    lemma_yawn_cue_on_reaching_switch(
        tick_state(s, distance, left_click, direction),
        next_distance,
        next_left_click,
        next_direction,
    );
}

/// Once the counter of the yawning stage (with its slow timing, set on the
/// stage's first tick) has reached its frame switch, it
/// stays there for the rest of the stage: an idle tick that stays in the
/// stage keeps the counter at or past the switch, so no further yawn sounds
/// before the stage ends.
pub proof fn lemma_yawn_switch_stays_passed(s: NekoState, distance: i32, left_click: bool, direction: Direction)
    requires
        s.well_timed(),
        s.state == 10,
        s.min == 32,
        s.count >= s.min,
        tick_fits(s, distance, left_click, direction),
        tick_state(s, distance, left_click, direction).state == 10,
    ensures
        tick_state(s, distance, left_click, direction).count >= tick_state(s, distance, left_click, direction).min,
        !tick_sounds(s, distance, left_click, direction).contains(NekoSoundEvent::IdleYawn),
{
    lemma_yawn_cue_on_reaching_switch(s, distance, left_click, direction);
}

/// A tick chases exactly when the cursor is at least a window side away and
/// the cat is not waiting; then the window moves one step towards it.
pub proof fn lemma_chases_when_out_of_reach(s: NekoState, distance: i32, left_click: bool, direction: Direction)
    ensures
        !tick_is_idle(s, distance) <==> (distance >= 32 && !s.waiting),
{
}

/// The slow timing goes with the yawning pose: an idle tick that shows the
/// yawn uses 32/64, any other idle tick keeps the timing it had.
pub proof fn lemma_idle_timing_follows_pose(s: NekoState)
    ensures
        idle_update(s).sprite_base == SpriteBase::Yawn ==> idle_update(s).min == 32 && idle_update(s).max == 64,
        idle_update(s).sprite_base != SpriteBase::Yawn && s.state >= 0
            ==> idle_update(s).min == s.min && idle_update(s).max == s.max,
{
}

/// The stage counter counts every tick up to the end of the stage, and
/// starts again from 0 only on the tick that passes it; an idle stage moves
/// on to the next exactly on that tick.
pub proof fn lemma_stage_counter(s: NekoState, distance: i32, left_click: bool, direction: Direction)
    requires
        s.count >= 0,
        tick_fits(s, distance, left_click, direction),
    ensures
        ({
            let t = tick_state(s, distance, left_click, direction);
            &&& t.count == s.count + 1 && s.count + 1 <= t.max || t.count == 0 && s.count + 1 > t.max
            &&& tick_is_idle(s, distance) && s.state > 0 ==> (t.state == s.state + 1 <==> t.count == 0)
        }),
{
}

/// The yawn sounds on the first tick that shows the second image of the
/// yawn loop: the tick before showed the first one.
pub proof fn lemma_yawn_with_second_frame(
    s: NekoState,
    distance: i32,
    left_click: bool,
    direction: Direction,
    before: SpriteFrameKey,
    after: SpriteFrameKey,
)
    requires
        s.min == 32,
        tick_is_idle(s, distance),
        tick_fits(s, distance, left_click, direction),
        tick_sounds(s, distance, left_click, direction).contains(NekoSoundEvent::IdleYawn),
        frame_matches(before, SpriteBase::Yawn, s.count as int, s.min as int),
        ({
            let t = tick_state(s, distance, left_click, direction);
            frame_matches(after, t.sprite_base, t.count as int, t.min as int)
        }),
    ensures
        before == SpriteFrameKey::Yawn1,
        after == SpriteFrameKey::Yawn2,
{
    lemma_yawn_cue_on_reaching_switch(s, distance, left_click, direction);
}

} // verus!
