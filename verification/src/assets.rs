//! The cat's sprite and sound catalogue: which frames and sounds exist, the
//! file each one is loaded from, and a store of loaded handles indexed by key.
use vstd::prelude::*;

verus! {

/// An animation family of the cat: one still pose or a two-frame loop.
#[derive(Debug, Clone, Copy, PartialEq, Eq, Hash, Structural)]
pub enum SpriteBase {
    Awake,
    Up,
    UpRight,
    Right,
    DownRight,
    Down,
    DownLeft,
    Left,
    UpLeft,
    Scratch,
    Wash,
    Yawn,
    Sleep,
}

/// A single drawable frame.
#[derive(Debug, Clone, Copy, PartialEq, Eq, Hash, Structural)]
pub enum SpriteFrameKey {
    Awake,
    Up1,
    Up2,
    UpRight1,
    UpRight2,
    Right1,
    Right2,
    DownRight1,
    DownRight2,
    Down1,
    Down2,
    DownLeft1,
    DownLeft2,
    Left1,
    Left2,
    UpLeft1,
    UpLeft2,
    Scratch1,
    Scratch2,
    Wash1,
    Wash2,
    Yawn1,
    Yawn2,
    Sleep1,
    Sleep2,
}

/// A sound the cat can play.
#[derive(Debug, Clone, Copy, PartialEq, Eq, Hash, Structural)]
pub enum SoundKey {
    Awake,
    IdleYawn,
    Sleep,
}

/// Number of distinct sprite frames.
pub const FRAME_COUNT: usize = 25;

/// Number of distinct sounds.
pub const SOUND_COUNT: usize = 3;

/// The animation family a frame belongs to.
pub open spec fn frame_family(frame: SpriteFrameKey) -> SpriteBase {
    match frame {
        SpriteFrameKey::Awake => SpriteBase::Awake,
        SpriteFrameKey::Up1 | SpriteFrameKey::Up2 => SpriteBase::Up,
        SpriteFrameKey::UpRight1 | SpriteFrameKey::UpRight2 => SpriteBase::UpRight,
        SpriteFrameKey::Right1 | SpriteFrameKey::Right2 => SpriteBase::Right,
        SpriteFrameKey::DownRight1 | SpriteFrameKey::DownRight2 => SpriteBase::DownRight,
        SpriteFrameKey::Down1 | SpriteFrameKey::Down2 => SpriteBase::Down,
        SpriteFrameKey::DownLeft1 | SpriteFrameKey::DownLeft2 => SpriteBase::DownLeft,
        SpriteFrameKey::Left1 | SpriteFrameKey::Left2 => SpriteBase::Left,
        SpriteFrameKey::UpLeft1 | SpriteFrameKey::UpLeft2 => SpriteBase::UpLeft,
        SpriteFrameKey::Scratch1 | SpriteFrameKey::Scratch2 => SpriteBase::Scratch,
        SpriteFrameKey::Wash1 | SpriteFrameKey::Wash2 => SpriteBase::Wash,
        SpriteFrameKey::Yawn1 | SpriteFrameKey::Yawn2 => SpriteBase::Yawn,
        SpriteFrameKey::Sleep1 | SpriteFrameKey::Sleep2 => SpriteBase::Sleep,
    }
}

/// Whether a frame is the second image of its two-frame loop.
pub open spec fn is_second_frame(frame: SpriteFrameKey) -> bool {
    match frame {
        SpriteFrameKey::Up2 | SpriteFrameKey::UpRight2 | SpriteFrameKey::Right2
        | SpriteFrameKey::DownRight2 | SpriteFrameKey::Down2 | SpriteFrameKey::DownLeft2
        | SpriteFrameKey::Left2 | SpriteFrameKey::UpLeft2 | SpriteFrameKey::Scratch2
        | SpriteFrameKey::Wash2 | SpriteFrameKey::Yawn2 | SpriteFrameKey::Sleep2 => true,
        _ => false,
    }
}

/// A frame is determined by its family and by which image of the loop it is.
pub proof fn lemma_frame_determined(a: SpriteFrameKey, b: SpriteFrameKey)
    requires
        frame_family(a) == frame_family(b),
        is_second_frame(a) == is_second_frame(b),
    ensures
        a == b,
{
}

/// The slot of each frame in the frame catalogue, in declaration order.
pub open spec fn frame_slot(frame: SpriteFrameKey) -> int {
    match frame {
        SpriteFrameKey::Awake => 0,
        SpriteFrameKey::Up1 => 1,
        SpriteFrameKey::Up2 => 2,
        SpriteFrameKey::UpRight1 => 3,
        SpriteFrameKey::UpRight2 => 4,
        SpriteFrameKey::Right1 => 5,
        SpriteFrameKey::Right2 => 6,
        SpriteFrameKey::DownRight1 => 7,
        SpriteFrameKey::DownRight2 => 8,
        SpriteFrameKey::Down1 => 9,
        SpriteFrameKey::Down2 => 10,
        SpriteFrameKey::DownLeft1 => 11,
        SpriteFrameKey::DownLeft2 => 12,
        SpriteFrameKey::Left1 => 13,
        SpriteFrameKey::Left2 => 14,
        SpriteFrameKey::UpLeft1 => 15,
        SpriteFrameKey::UpLeft2 => 16,
        SpriteFrameKey::Scratch1 => 17,
        SpriteFrameKey::Scratch2 => 18,
        SpriteFrameKey::Wash1 => 19,
        SpriteFrameKey::Wash2 => 20,
        SpriteFrameKey::Yawn1 => 21,
        SpriteFrameKey::Yawn2 => 22,
        SpriteFrameKey::Sleep1 => 23,
        SpriteFrameKey::Sleep2 => 24,
    }
}

/// The frame in slot `slot` of the frame catalogue.
pub open spec fn frame_in_slot(slot: int) -> SpriteFrameKey {
    if slot == 0 {
        SpriteFrameKey::Awake
    } else if slot == 1 {
        SpriteFrameKey::Up1
    } else if slot == 2 {
        SpriteFrameKey::Up2
    } else if slot == 3 {
        SpriteFrameKey::UpRight1
    } else if slot == 4 {
        SpriteFrameKey::UpRight2
    } else if slot == 5 {
        SpriteFrameKey::Right1
    } else if slot == 6 {
        SpriteFrameKey::Right2
    } else if slot == 7 {
        SpriteFrameKey::DownRight1
    } else if slot == 8 {
        SpriteFrameKey::DownRight2
    } else if slot == 9 {
        SpriteFrameKey::Down1
    } else if slot == 10 {
        SpriteFrameKey::Down2
    } else if slot == 11 {
        SpriteFrameKey::DownLeft1
    } else if slot == 12 {
        SpriteFrameKey::DownLeft2
    } else if slot == 13 {
        SpriteFrameKey::Left1
    } else if slot == 14 {
        SpriteFrameKey::Left2
    } else if slot == 15 {
        SpriteFrameKey::UpLeft1
    } else if slot == 16 {
        SpriteFrameKey::UpLeft2
    } else if slot == 17 {
        SpriteFrameKey::Scratch1
    } else if slot == 18 {
        SpriteFrameKey::Scratch2
    } else if slot == 19 {
        SpriteFrameKey::Wash1
    } else if slot == 20 {
        SpriteFrameKey::Wash2
    } else if slot == 21 {
        SpriteFrameKey::Yawn1
    } else if slot == 22 {
        SpriteFrameKey::Yawn2
    } else if slot == 23 {
        SpriteFrameKey::Sleep1
    } else {
        SpriteFrameKey::Sleep2
    }
}

/// Each frame has a slot of its own below `FRAME_COUNT`.
pub proof fn lemma_frame_slots(frame: SpriteFrameKey)
    ensures
        0 <= frame_slot(frame) < FRAME_COUNT,
        frame_in_slot(frame_slot(frame)) == frame,
{
}

/// The image file of each frame.
pub open spec fn frame_file(frame: SpriteFrameKey) -> Seq<char> {
    match frame {
        SpriteFrameKey::Awake => "awake.png"@,
        SpriteFrameKey::Up1 => "up1.png"@,
        SpriteFrameKey::Up2 => "up2.png"@,
        SpriteFrameKey::UpRight1 => "upright1.png"@,
        SpriteFrameKey::UpRight2 => "upright2.png"@,
        SpriteFrameKey::Right1 => "right1.png"@,
        SpriteFrameKey::Right2 => "right2.png"@,
        SpriteFrameKey::DownRight1 => "downright1.png"@,
        SpriteFrameKey::DownRight2 => "downright2.png"@,
        SpriteFrameKey::Down1 => "down1.png"@,
        SpriteFrameKey::Down2 => "down2.png"@,
        SpriteFrameKey::DownLeft1 => "downleft1.png"@,
        SpriteFrameKey::DownLeft2 => "downleft2.png"@,
        SpriteFrameKey::Left1 => "left1.png"@,
        SpriteFrameKey::Left2 => "left2.png"@,
        SpriteFrameKey::UpLeft1 => "upleft1.png"@,
        SpriteFrameKey::UpLeft2 => "upleft2.png"@,
        SpriteFrameKey::Scratch1 => "scratch1.png"@,
        SpriteFrameKey::Scratch2 => "scratch2.png"@,
        SpriteFrameKey::Wash1 => "wash1.png"@,
        SpriteFrameKey::Wash2 => "wash2.png"@,
        SpriteFrameKey::Yawn1 => "yawn1.png"@,
        SpriteFrameKey::Yawn2 => "yawn2.png"@,
        SpriteFrameKey::Sleep1 => "sleep1.png"@,
        SpriteFrameKey::Sleep2 => "sleep2.png"@,
    }
}

/// The stem of the image files of each animation family.
pub open spec fn family_stem(base: SpriteBase) -> Seq<char> {
    match base {
        SpriteBase::Awake => "awake"@,
        SpriteBase::Up => "up"@,
        SpriteBase::UpRight => "upright"@,
        SpriteBase::Right => "right"@,
        SpriteBase::DownRight => "downright"@,
        SpriteBase::Down => "down"@,
        SpriteBase::DownLeft => "downleft"@,
        SpriteBase::Left => "left"@,
        SpriteBase::UpLeft => "upleft"@,
        SpriteBase::Scratch => "scratch"@,
        SpriteBase::Wash => "wash"@,
        SpriteBase::Yawn => "yawn"@,
        SpriteBase::Sleep => "sleep"@,
    }
}

/// The file name a frame is loaded from: its family's stem, then `1` or `2`
/// for the image of a two-frame loop (nothing for the still awake pose),
/// then `.png`.
pub open spec fn frame_file_name(frame: SpriteFrameKey) -> Seq<char> {
    let number = if frame_family(frame) == SpriteBase::Awake {
        Seq::<char>::empty()
    } else if is_second_frame(frame) {
        "2"@
    } else {
        "1"@
    };
    family_stem(frame_family(frame)) + number + ".png"@
}

/// Each frame is loaded from the file named after its own family and image.
pub proof fn lemma_frame_file_names_frame(frame: SpriteFrameKey)
    ensures
        frame_file(frame) =~= frame_file_name(frame),
{
    match frame {
        SpriteFrameKey::Awake => {
            reveal_strlit("awake");
            reveal_strlit(".png");
            reveal_strlit("awake.png");
        },
        SpriteFrameKey::Up1 => {
            reveal_strlit("up");
            reveal_strlit(".png");
            reveal_strlit("up1.png");
            reveal_strlit("1");
        },
        SpriteFrameKey::Up2 => {
            reveal_strlit("up");
            reveal_strlit(".png");
            reveal_strlit("up2.png");
            reveal_strlit("2");
        },
        SpriteFrameKey::UpRight1 => {
            reveal_strlit("upright");
            reveal_strlit(".png");
            reveal_strlit("upright1.png");
            reveal_strlit("1");
        },
        SpriteFrameKey::UpRight2 => {
            reveal_strlit("upright");
            reveal_strlit(".png");
            reveal_strlit("upright2.png");
            reveal_strlit("2");
        },
        SpriteFrameKey::Right1 => {
            reveal_strlit("right");
            reveal_strlit(".png");
            reveal_strlit("right1.png");
            reveal_strlit("1");
        },
        SpriteFrameKey::Right2 => {
            reveal_strlit("right");
            reveal_strlit(".png");
            reveal_strlit("right2.png");
            reveal_strlit("2");
        },
        SpriteFrameKey::DownRight1 => {
            reveal_strlit("downright");
            reveal_strlit(".png");
            reveal_strlit("downright1.png");
            reveal_strlit("1");
        },
        SpriteFrameKey::DownRight2 => {
            reveal_strlit("downright");
            reveal_strlit(".png");
            reveal_strlit("downright2.png");
            reveal_strlit("2");
        },
        SpriteFrameKey::Down1 => {
            reveal_strlit("down");
            reveal_strlit(".png");
            reveal_strlit("down1.png");
            reveal_strlit("1");
        },
        SpriteFrameKey::Down2 => {
            reveal_strlit("down");
            reveal_strlit(".png");
            reveal_strlit("down2.png");
            reveal_strlit("2");
        },
        SpriteFrameKey::DownLeft1 => {
            reveal_strlit("downleft");
            reveal_strlit(".png");
            reveal_strlit("downleft1.png");
            reveal_strlit("1");
        },
        SpriteFrameKey::DownLeft2 => {
            reveal_strlit("downleft");
            reveal_strlit(".png");
            reveal_strlit("downleft2.png");
            reveal_strlit("2");
        },
        SpriteFrameKey::Left1 => {
            reveal_strlit("left");
            reveal_strlit(".png");
            reveal_strlit("left1.png");
            reveal_strlit("1");
        },
        SpriteFrameKey::Left2 => {
            reveal_strlit("left");
            reveal_strlit(".png");
            reveal_strlit("left2.png");
            reveal_strlit("2");
        },
        SpriteFrameKey::UpLeft1 => {
            reveal_strlit("upleft");
            reveal_strlit(".png");
            reveal_strlit("upleft1.png");
            reveal_strlit("1");
        },
        SpriteFrameKey::UpLeft2 => {
            reveal_strlit("upleft");
            reveal_strlit(".png");
            reveal_strlit("upleft2.png");
            reveal_strlit("2");
        },
        SpriteFrameKey::Scratch1 => {
            reveal_strlit("scratch");
            reveal_strlit(".png");
            reveal_strlit("scratch1.png");
            reveal_strlit("1");
        },
        SpriteFrameKey::Scratch2 => {
            reveal_strlit("scratch");
            reveal_strlit(".png");
            reveal_strlit("scratch2.png");
            reveal_strlit("2");
        },
        SpriteFrameKey::Wash1 => {
            reveal_strlit("wash");
            reveal_strlit(".png");
            reveal_strlit("wash1.png");
            reveal_strlit("1");
        },
        SpriteFrameKey::Wash2 => {
            reveal_strlit("wash");
            reveal_strlit(".png");
            reveal_strlit("wash2.png");
            reveal_strlit("2");
        },
        SpriteFrameKey::Yawn1 => {
            reveal_strlit("yawn");
            reveal_strlit(".png");
            reveal_strlit("yawn1.png");
            reveal_strlit("1");
        },
        SpriteFrameKey::Yawn2 => {
            reveal_strlit("yawn");
            reveal_strlit(".png");
            reveal_strlit("yawn2.png");
            reveal_strlit("2");
        },
        SpriteFrameKey::Sleep1 => {
            reveal_strlit("sleep");
            reveal_strlit(".png");
            reveal_strlit("sleep1.png");
            reveal_strlit("1");
        },
        SpriteFrameKey::Sleep2 => {
            reveal_strlit("sleep");
            reveal_strlit(".png");
            reveal_strlit("sleep2.png");
            reveal_strlit("2");
        },
    }
}

/// The slot of `frame` in the frame catalogue.
pub fn frame_index(frame: SpriteFrameKey) -> (slot: usize)
    ensures
        slot == frame_slot(frame),
        slot < FRAME_COUNT,
{
    match frame {
        SpriteFrameKey::Awake => 0,
        SpriteFrameKey::Up1 => 1,
        SpriteFrameKey::Up2 => 2,
        SpriteFrameKey::UpRight1 => 3,
        SpriteFrameKey::UpRight2 => 4,
        SpriteFrameKey::Right1 => 5,
        SpriteFrameKey::Right2 => 6,
        SpriteFrameKey::DownRight1 => 7,
        SpriteFrameKey::DownRight2 => 8,
        SpriteFrameKey::Down1 => 9,
        SpriteFrameKey::Down2 => 10,
        SpriteFrameKey::DownLeft1 => 11,
        SpriteFrameKey::DownLeft2 => 12,
        SpriteFrameKey::Left1 => 13,
        SpriteFrameKey::Left2 => 14,
        SpriteFrameKey::UpLeft1 => 15,
        SpriteFrameKey::UpLeft2 => 16,
        SpriteFrameKey::Scratch1 => 17,
        SpriteFrameKey::Scratch2 => 18,
        SpriteFrameKey::Wash1 => 19,
        SpriteFrameKey::Wash2 => 20,
        SpriteFrameKey::Yawn1 => 21,
        SpriteFrameKey::Yawn2 => 22,
        SpriteFrameKey::Sleep1 => 23,
        SpriteFrameKey::Sleep2 => 24,
    }
}

/// The image file of `frame`.
pub fn sprite_path(frame: SpriteFrameKey) -> (path: &'static str)
    ensures
        path@ == frame_file(frame),
{
    match frame {
        SpriteFrameKey::Awake => "awake.png",
        SpriteFrameKey::Up1 => "up1.png",
        SpriteFrameKey::Up2 => "up2.png",
        SpriteFrameKey::UpRight1 => "upright1.png",
        SpriteFrameKey::UpRight2 => "upright2.png",
        SpriteFrameKey::Right1 => "right1.png",
        SpriteFrameKey::Right2 => "right2.png",
        SpriteFrameKey::DownRight1 => "downright1.png",
        SpriteFrameKey::DownRight2 => "downright2.png",
        SpriteFrameKey::Down1 => "down1.png",
        SpriteFrameKey::Down2 => "down2.png",
        SpriteFrameKey::DownLeft1 => "downleft1.png",
        SpriteFrameKey::DownLeft2 => "downleft2.png",
        SpriteFrameKey::Left1 => "left1.png",
        SpriteFrameKey::Left2 => "left2.png",
        SpriteFrameKey::UpLeft1 => "upleft1.png",
        SpriteFrameKey::UpLeft2 => "upleft2.png",
        SpriteFrameKey::Scratch1 => "scratch1.png",
        SpriteFrameKey::Scratch2 => "scratch2.png",
        SpriteFrameKey::Wash1 => "wash1.png",
        SpriteFrameKey::Wash2 => "wash2.png",
        SpriteFrameKey::Yawn1 => "yawn1.png",
        SpriteFrameKey::Yawn2 => "yawn2.png",
        SpriteFrameKey::Sleep1 => "sleep1.png",
        SpriteFrameKey::Sleep2 => "sleep2.png",
    }
}

/// Every frame with its image file, in catalogue order.
pub fn sprite_paths() -> (paths: [(SpriteFrameKey, &'static str); 25])
    ensures
        forall|i: int| 0 <= i < FRAME_COUNT ==> {
            &&& (#[trigger] paths@[i]).0 == frame_in_slot(i)
            &&& paths@[i].1@ == frame_file(frame_in_slot(i))
        },
{
    [
        (SpriteFrameKey::Awake, sprite_path(SpriteFrameKey::Awake)),
        (SpriteFrameKey::Up1, sprite_path(SpriteFrameKey::Up1)),
        (SpriteFrameKey::Up2, sprite_path(SpriteFrameKey::Up2)),
        (SpriteFrameKey::UpRight1, sprite_path(SpriteFrameKey::UpRight1)),
        (SpriteFrameKey::UpRight2, sprite_path(SpriteFrameKey::UpRight2)),
        (SpriteFrameKey::Right1, sprite_path(SpriteFrameKey::Right1)),
        (SpriteFrameKey::Right2, sprite_path(SpriteFrameKey::Right2)),
        (SpriteFrameKey::DownRight1, sprite_path(SpriteFrameKey::DownRight1)),
        (SpriteFrameKey::DownRight2, sprite_path(SpriteFrameKey::DownRight2)),
        (SpriteFrameKey::Down1, sprite_path(SpriteFrameKey::Down1)),
        (SpriteFrameKey::Down2, sprite_path(SpriteFrameKey::Down2)),
        (SpriteFrameKey::DownLeft1, sprite_path(SpriteFrameKey::DownLeft1)),
        (SpriteFrameKey::DownLeft2, sprite_path(SpriteFrameKey::DownLeft2)),
        (SpriteFrameKey::Left1, sprite_path(SpriteFrameKey::Left1)),
        (SpriteFrameKey::Left2, sprite_path(SpriteFrameKey::Left2)),
        (SpriteFrameKey::UpLeft1, sprite_path(SpriteFrameKey::UpLeft1)),
        (SpriteFrameKey::UpLeft2, sprite_path(SpriteFrameKey::UpLeft2)),
        (SpriteFrameKey::Scratch1, sprite_path(SpriteFrameKey::Scratch1)),
        (SpriteFrameKey::Scratch2, sprite_path(SpriteFrameKey::Scratch2)),
        (SpriteFrameKey::Wash1, sprite_path(SpriteFrameKey::Wash1)),
        (SpriteFrameKey::Wash2, sprite_path(SpriteFrameKey::Wash2)),
        (SpriteFrameKey::Yawn1, sprite_path(SpriteFrameKey::Yawn1)),
        (SpriteFrameKey::Yawn2, sprite_path(SpriteFrameKey::Yawn2)),
        (SpriteFrameKey::Sleep1, sprite_path(SpriteFrameKey::Sleep1)),
        (SpriteFrameKey::Sleep2, sprite_path(SpriteFrameKey::Sleep2)),
    ]
}

/// The slot of each sound in the sound catalogue.
pub open spec fn sound_slot(sound: SoundKey) -> int {
    match sound {
        SoundKey::Awake => 0,
        SoundKey::IdleYawn => 1,
        SoundKey::Sleep => 2,
    }
}

/// The sound in slot `slot` of the sound catalogue.
pub open spec fn sound_in_slot(slot: int) -> SoundKey {
    if slot == 0 {
        SoundKey::Awake
    } else if slot == 1 {
        SoundKey::IdleYawn
    } else {
        SoundKey::Sleep
    }
}

/// Each sound has a slot of its own below `SOUND_COUNT`.
pub proof fn lemma_sound_slots(sound: SoundKey)
    ensures
        0 <= sound_slot(sound) < SOUND_COUNT,
        sound_in_slot(sound_slot(sound)) == sound,
{
}

/// The audio file of each sound.
pub open spec fn sound_file(sound: SoundKey) -> Seq<char> {
    match sound {
        SoundKey::Awake => "awake.wav"@,
        SoundKey::IdleYawn => "idle3.wav"@,
        SoundKey::Sleep => "sleep.wav"@,
    }
}

/// The slot of `sound` in the sound catalogue.
pub fn sound_index(sound: SoundKey) -> (slot: usize)
    ensures
        slot == sound_slot(sound),
        slot < SOUND_COUNT,
{
    match sound {
        SoundKey::Awake => 0,
        SoundKey::IdleYawn => 1,
        SoundKey::Sleep => 2,
    }
}

/// The audio file of `sound`.
pub fn sound_path(sound: SoundKey) -> (path: &'static str)
    ensures
        path@ == sound_file(sound),
{
    match sound {
        SoundKey::Awake => "awake.wav",
        SoundKey::IdleYawn => "idle3.wav",
        SoundKey::Sleep => "sleep.wav",
    }
}

/// Every sound with its audio file, in catalogue order.
pub fn sound_paths() -> (paths: [(SoundKey, &'static str); 3])
    ensures
        forall|i: int| 0 <= i < SOUND_COUNT ==> {
            &&& (#[trigger] paths@[i]).0 == sound_in_slot(i)
            &&& paths@[i].1@ == sound_file(sound_in_slot(i))
        },
{
    [
        (SoundKey::Awake, sound_path(SoundKey::Awake)),
        (SoundKey::IdleYawn, sound_path(SoundKey::IdleYawn)),
        (SoundKey::Sleep, sound_path(SoundKey::Sleep)),
    ]
}

/// The loaded images and sounds of the cat, one handle per catalogue slot:
/// `I` is the handle type of an image, `A` that of a sound.
pub struct NekoAssets<I, A> {
    frames: Vec<I>,
    sounds: Vec<A>,
}

impl<I, A> NekoAssets<I, A> {
    #[verifier::type_invariant]
    spec fn complete(self) -> bool {
        &&& self.frames@.len() == FRAME_COUNT
        &&& self.sounds@.len() == SOUND_COUNT
    }

    /// The image handles, by frame slot.
    pub closed spec fn frame_handles(self) -> Seq<I> {
        self.frames@
    }

    /// The sound handles, by sound slot.
    pub closed spec fn sound_handles(self) -> Seq<A> {
        self.sounds@
    }

    /// The store of the given handles: `frames` in the order of
    /// `sprite_paths`, `sounds` in the order of `sound_paths`.
    pub fn new(frames: Vec<I>, sounds: Vec<A>) -> (assets: Self)
        requires
            frames@.len() == FRAME_COUNT,
            sounds@.len() == SOUND_COUNT,
        ensures
            assets.frame_handles() == frames@,
            assets.sound_handles() == sounds@,
    {
        NekoAssets { frames, sounds }
    }

    /// The image handle of `frame`.
    pub fn frame_handle(&self, frame: SpriteFrameKey) -> (handle: &I)
        ensures
            *handle == self.frame_handles()[frame_slot(frame)],
    {
        proof {
            use_type_invariant(self);
        }
        &self.frames[frame_index(frame)]
    }

    /// The sound handle of `sound`.
    pub fn sound_handle(&self, sound: SoundKey) -> (handle: &A)
        ensures
            *handle == self.sound_handles()[sound_slot(sound)],
    {
        proof {
            use_type_invariant(self);
        }
        &self.sounds[sound_index(sound)]
    }
}

} // verus!
