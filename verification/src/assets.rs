//! Sprite metadata and the stable indices entities store.
//!
//! Sprites are described by pixel dimensions and a scale in thousandths; the
//! simulation only ever reads the fraction of the playfield width a sprite
//! covers, so sizes are converted once into fixed-point fractions and looked
//! up by index. Textures, filenames and loading live outside this crate.

use std::borrow::Cow;
use vstd::prelude::*;
use crate::fx::FX_ONE;

verus! {

pub const IX_PLAYER: usize = 0;
pub const IX_LASER: usize = 1;
pub const IX_ALIEN_1: usize = 2;
pub const IX_ALIEN_2: usize = 3;
pub const IX_ALIEN_3: usize = 4;
pub const IX_EXPLOSION_0: usize = 5;
pub const IX_EXPLOSION_8: usize = 13;
pub const IX_BOMB: usize = 14;
pub const SPRITE_COUNT: usize = 15;

pub const IX_SOUND_EXPLOSION: usize = 0;
pub const IX_SOUND_LASER: usize = 1;
pub const IX_SOUND_POP_01: usize = 2;
pub const IX_SOUND_POP_04: usize = 5;

/// The screen width the pixel sizes were authored for.
pub const ASSUMED_SCREEN_WIDTH: u32 = 2400;

/// Immutable description of one sprite: pixel size and a scale in
/// thousandths. Created once at load time and never mutated.
pub struct Sprite {
    pub index: usize,
    pub width_pix: u32,
    pub height_pix: u32,
    pub scale_milli: u32,
}

/// A sprite's width and height as fixed-point fractions of the playfield
/// width, used solely for collision-box sizing.
#[derive(Clone, Copy, PartialEq, Eq, Structural)]
pub struct SpriteSize {
    pub f_w: i64,
    pub f_h: i64,
}

/// `pix` pixels under `scale_milli` thousandths of scale, as a fixed-point
/// fraction of the assumed screen width.
pub open spec fn screen_frac(pix: int, scale_milli: int) -> int {
    pix * scale_milli * FX_ONE / (ASSUMED_SCREEN_WIDTH * 1000)
}

pub open spec fn sprite_size_spec(m: Sprite) -> SpriteSize {
    SpriteSize {
        f_w: screen_frac(m.width_pix as int, m.scale_milli as int) as i64,
        f_h: screen_frac(m.height_pix as int, m.scale_milli as int) as i64,
    }
}

/// A size table is well formed when it has one entry per sprite index and
/// every dimension is a sane fraction of the playfield.
pub open spec fn wf_sprites(s: Seq<SpriteSize>) -> bool {
    &&& s.len() == SPRITE_COUNT
    &&& forall|i: int|
        0 <= i < s.len() ==> 0 <= #[trigger] s[i].f_w <= FX_ONE && 0 <= s[i].f_h <= FX_ONE
}

/// Collision-box size of one sprite.
pub fn sprite_size(m: &Sprite) -> (r: SpriteSize)
    requires
        wf_meta(*m),
    ensures
        r == sprite_size_spec(*m),
        0 <= r.f_w <= FX_ONE,
        0 <= r.f_h <= FX_ONE,
{
    let w: i64 = (m.width_pix as i64) * (m.scale_milli as i64) * FX_ONE
        / ((ASSUMED_SCREEN_WIDTH as i64) * 1000);
    let h: i64 = (m.height_pix as i64) * (m.scale_milli as i64) * FX_ONE
        / ((ASSUMED_SCREEN_WIDTH as i64) * 1000);
    SpriteSize { f_w: w, f_h: h }
}

/// Pixel sizes small enough that the fixed-point fraction stays within one
/// playfield width.
pub open spec fn wf_meta(m: Sprite) -> bool {
    &&& m.width_pix * m.scale_milli <= 2_400_000
    &&& m.height_pix * m.scale_milli <= 2_400_000
}

/// The metadata of the sprite at index `i` of the standard table.
pub open spec fn standard_meta(i: int) -> Sprite {
    if i == 0 {
        Sprite { index: 0, width_pix: 95, height_pix: 75, scale_milli: 1000 }
    } else if i == 1 {
        Sprite { index: 1, width_pix: 9, height_pix: 37, scale_milli: 1000 }
    } else if i == 2 {
        Sprite { index: 2, width_pix: 103, height_pix: 84, scale_milli: 1300 }
    } else if i == 3 {
        Sprite { index: 3, width_pix: 93, height_pix: 84, scale_milli: 1350 }
    } else if i == 4 {
        Sprite { index: 4, width_pix: 104, height_pix: 84, scale_milli: 1300 }
    } else if i == 5 {
        Sprite { index: 5, width_pix: 128, height_pix: 118, scale_milli: 1000 }
    } else if i == 6 {
        Sprite { index: 6, width_pix: 128, height_pix: 118, scale_milli: 1000 }
    } else if i == 7 {
        Sprite { index: 7, width_pix: 128, height_pix: 109, scale_milli: 1000 }
    } else if i == 8 {
        Sprite { index: 8, width_pix: 128, height_pix: 142, scale_milli: 1000 }
    } else if i == 9 {
        Sprite { index: 9, width_pix: 128, height_pix: 132, scale_milli: 1000 }
    } else if i == 10 {
        Sprite { index: 10, width_pix: 128, height_pix: 122, scale_milli: 1000 }
    } else if i == 11 {
        Sprite { index: 11, width_pix: 128, height_pix: 130, scale_milli: 1000 }
    } else if i == 12 {
        Sprite { index: 12, width_pix: 128, height_pix: 105, scale_milli: 1000 }
    } else if i == 13 {
        Sprite { index: 13, width_pix: 128, height_pix: 125, scale_milli: 1000 }
    } else {
        Sprite { index: 14, width_pix: 9, height_pix: 37, scale_milli: 1000 }
    }
}

/// The metadata of the sprite at each index, in index order.
#[verifier::rlimit(50)]
pub fn standard_sprite_meta() -> (r: Vec<Sprite>)
    ensures
        r@.len() == SPRITE_COUNT,
        forall|i: int| 0 <= i < r@.len() ==> r@[i] == standard_meta(i),
        forall|i: int| 0 <= i < r@.len() ==> wf_meta(#[trigger] r@[i]),
{
    let mut v: Vec<Sprite> = Vec::new();
    v.push(Sprite { index: 0, width_pix: 95, height_pix: 75, scale_milli: 1000 });
    v.push(Sprite { index: 1, width_pix: 9, height_pix: 37, scale_milli: 1000 });
    v.push(Sprite { index: 2, width_pix: 103, height_pix: 84, scale_milli: 1300 });
    v.push(Sprite { index: 3, width_pix: 93, height_pix: 84, scale_milli: 1350 });
    v.push(Sprite { index: 4, width_pix: 104, height_pix: 84, scale_milli: 1300 });
    v.push(Sprite { index: 5, width_pix: 128, height_pix: 118, scale_milli: 1000 });
    v.push(Sprite { index: 6, width_pix: 128, height_pix: 118, scale_milli: 1000 });
    v.push(Sprite { index: 7, width_pix: 128, height_pix: 109, scale_milli: 1000 });
    v.push(Sprite { index: 8, width_pix: 128, height_pix: 142, scale_milli: 1000 });
    v.push(Sprite { index: 9, width_pix: 128, height_pix: 132, scale_milli: 1000 });
    v.push(Sprite { index: 10, width_pix: 128, height_pix: 122, scale_milli: 1000 });
    v.push(Sprite { index: 11, width_pix: 128, height_pix: 130, scale_milli: 1000 });
    v.push(Sprite { index: 12, width_pix: 128, height_pix: 105, scale_milli: 1000 });
    v.push(Sprite { index: 13, width_pix: 128, height_pix: 125, scale_milli: 1000 });
    v.push(Sprite { index: 14, width_pix: 9, height_pix: 37, scale_milli: 1000 });
    v
}

/// Collision-box sizes of the standard sprites, in index order.
pub fn standard_sprites() -> (r: Vec<SpriteSize>)
    ensures
        wf_sprites(r@),
        forall|i: int| 0 <= i < r@.len() ==> r@[i] == sprite_size_spec(standard_meta(i)),
{
    let meta = standard_sprite_meta();
    let mut v: Vec<SpriteSize> = Vec::new();
    let mut i: usize = 0;
    while i < meta.len()
        invariant
            i <= meta@.len(),
            meta@.len() == SPRITE_COUNT,
            v@.len() == i,
            forall|k: int| 0 <= k < meta@.len() ==> wf_meta(#[trigger] meta@[k]),
            forall|k: int| 0 <= k < meta@.len() ==> meta@[k] == standard_meta(k),
            forall|k: int|
                0 <= k < i ==> 0 <= #[trigger] v@[k].f_w <= FX_ONE && 0 <= v@[k].f_h <= FX_ONE,
            forall|k: int| 0 <= k < i ==> #[trigger] v@[k] == sprite_size_spec(standard_meta(k)),
        decreases meta@.len() - i,
    {
        let s = sprite_size(&meta[i]);
        v.push(s);
        i = i + 1;
    }
    v
}

/// A borrowed string as a copy-on-write string.
pub fn b_str(s: &'static str) -> (r: Cow<'static, str>)
    ensures
        r@ == s@,
{
    Cow::Borrowed(s)
}

} // verus!
