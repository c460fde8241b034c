//! Collision detection: axis-aligned bounding-box overlap between bullets
//! and aliens, and between bombs and the player. Both passes skip entities
//! already marked dead in the same frame, so one bullet never scores twice
//! and the first match in pool order wins.

use vstd::prelude::*;
use crate::assets::{wf_sprites, SpriteSize, IX_LASER, IX_PLAYER, IX_BOMB};
use crate::fx::{FX_LIMIT, FX_ONE};
use crate::params::PLAYER_Y;
use crate::state::{wf_alien, wf_bomb, wf_bullet, Alien, Bomb, Bullet};

verus! {

/// Axis-aligned overlap of two boxes given by centre, width and height: the
/// centres are closer than the sum of the half-extents on both axes.
pub open spec fn boxes_overlap(
    x1: int,
    y1: int,
    w1: int,
    h1: int,
    x2: int,
    y2: int,
    w2: int,
    h2: int,
) -> bool {
    &&& x1 + w1 / 2 > x2 - w2 / 2
    &&& x1 - w1 / 2 < x2 + w2 / 2
    &&& y1 + h1 / 2 > y2 - h2 / 2
    &&& y1 - h1 / 2 < y2 + h2 / 2
}

/// The overlap test, executably.
pub fn boxes_overlap_exec(
    x1: i64,
    y1: i64,
    w1: i64,
    h1: i64,
    x2: i64,
    y2: i64,
    w2: i64,
    h2: i64,
) -> (r: bool)
    requires
        -FX_LIMIT <= x1 <= FX_LIMIT,
        -FX_LIMIT <= y1 <= FX_LIMIT,
        -FX_LIMIT <= x2 <= FX_LIMIT,
        -FX_LIMIT <= y2 <= FX_LIMIT,
        0 <= w1 <= FX_ONE,
        0 <= h1 <= FX_ONE,
        0 <= w2 <= FX_ONE,
        0 <= h2 <= FX_ONE,
    ensures
        r == boxes_overlap(
            x1 as int,
            y1 as int,
            w1 as int,
            h1 as int,
            x2 as int,
            y2 as int,
            w2 as int,
            h2 as int,
        ),
{
    x1 + w1 / 2 > x2 - w2 / 2 && x1 - w1 / 2 < x2 + w2 / 2 && y1 + h1 / 2 > y2 - h2 / 2 && y1 - h1
        / 2 < y2 + h2 / 2
}

/// What one bullet-alien hit records: where the explosion spawns, and which
/// alien kind was struck for how many points.
#[derive(Clone, Copy, PartialEq, Eq, Structural)]
pub struct HitRec {
    pub bullet_x: i64,
    pub bullet_y: i64,
    pub sprite: usize,
    pub points: u32,
}

/// Index of the first live bullet at or past `from` whose box overlaps the
/// alien box, or -1 when none does.
pub open spec fn first_hit(
    bs: Seq<Bullet>,
    ax: int,
    ay: int,
    aw: int,
    ah: int,
    bw: int,
    bh: int,
    from: int,
) -> int
    decreases bs.len() - from,
{
    if from < 0 || from >= bs.len() {
        -1
    } else if !bs[from].dead && boxes_overlap(
        bs[from].xpos as int,
        bs[from].ypos as int,
        bw,
        bh,
        ax,
        ay,
        aw,
        ah,
    ) {
        from
    } else {
        first_hit(bs, ax, ay, aw, ah, bw, bh, from + 1)
    }
}

/// The bullet-alien pass up to the first `k` aliens: each live alien is
/// struck by the first live overlapping bullet, if any; both die, and the
/// hit is recorded in pool order.
pub open spec fn collide_upto(
    bs0: Seq<Bullet>,
    as0: Seq<Alien>,
    sprites: Seq<SpriteSize>,
    k: int,
) -> (Seq<Bullet>, Seq<Alien>, Seq<HitRec>)
    decreases k,
{
    if k <= 0 {
        (bs0, as0, Seq::<HitRec>::empty())
    } else {
        let prev = collide_upto(bs0, as0, sprites, k - 1);
        let bs = prev.0;
        let aliens = prev.1;
        let hs = prev.2;
        let a = aliens[k - 1];
        if a.dead {
            (bs, aliens, hs)
        } else {
            let j = first_hit(
                bs,
                a.xpos as int,
                a.ypos as int,
                sprites[a.sprite as int].f_w as int,
                sprites[a.sprite as int].f_h as int,
                sprites[IX_LASER as int].f_w as int,
                sprites[IX_LASER as int].f_h as int,
                0,
            );
            if j < 0 {
                (bs, aliens, hs)
            } else {
                (
                    bs.update(j, Bullet { dead: true, ..bs[j] }),
                    aliens.update(k - 1, Alien { dead: true, ..a }),
                    hs.push(
                        HitRec {
                            bullet_x: bs[j].xpos,
                            bullet_y: bs[j].ypos,
                            sprite: a.sprite,
                            points: a.points,
                        },
                    ),
                )
            }
        }
    }
}

/// Finds the first live bullet overlapping the given alien box.
fn find_hit(bullets: &Vec<Bullet>, ax: i64, ay: i64, aw: i64, ah: i64, bw: i64, bh: i64) -> (r:
    Option<usize>)
    requires
        forall|k: int| 0 <= k < bullets@.len() ==> wf_bullet(#[trigger] bullets@[k]),
        -FX_LIMIT <= ax <= FX_LIMIT,
        -FX_LIMIT <= ay <= FX_LIMIT,
        0 <= aw <= FX_ONE,
        0 <= ah <= FX_ONE,
        0 <= bw <= FX_ONE,
        0 <= bh <= FX_ONE,
    ensures
        ({
            let f = first_hit(
                bullets@,
                ax as int,
                ay as int,
                aw as int,
                ah as int,
                bw as int,
                bh as int,
                0,
            );
            match r {
                Some(j) => f == j && j < bullets@.len(),
                None => f == -1,
            }
        }),
{
    let mut j: usize = 0;
    while j < bullets.len()
        invariant
            j <= bullets@.len(),
            forall|k: int| 0 <= k < bullets@.len() ==> wf_bullet(#[trigger] bullets@[k]),
            -FX_LIMIT <= ax <= FX_LIMIT,
            -FX_LIMIT <= ay <= FX_LIMIT,
            0 <= aw <= FX_ONE,
            0 <= ah <= FX_ONE,
            0 <= bw <= FX_ONE,
            0 <= bh <= FX_ONE,
            first_hit(bullets@, ax as int, ay as int, aw as int, ah as int, bw as int, bh as int, 0)
                == first_hit(
                bullets@,
                ax as int,
                ay as int,
                aw as int,
                ah as int,
                bw as int,
                bh as int,
                j as int,
            ),
        decreases bullets@.len() - j,
    {
        if !bullets[j].dead && boxes_overlap_exec(
            bullets[j].xpos,
            bullets[j].ypos,
            bw,
            bh,
            ax,
            ay,
            aw,
            ah,
        ) {
            return Some(j);
        }
        j = j + 1;
    }
    None
}

/// The bullet-alien collision pass. Marks the struck pairs dead and returns
/// one record per hit, in pool order; score, explosions and events are the
/// caller's to derive from the records.
pub fn collide_bullets_aliens(
    bullets: &mut Vec<Bullet>,
    aliens: &mut Vec<Alien>,
    sprites: &Vec<SpriteSize>,
) -> (hits: Vec<HitRec>)
    requires
        wf_sprites(sprites@),
        forall|k: int| 0 <= k < old(bullets)@.len() ==> wf_bullet(#[trigger] old(bullets)@[k]),
        forall|k: int| 0 <= k < old(aliens)@.len() ==> wf_alien(#[trigger] old(aliens)@[k]),
    ensures
        final(bullets)@ == collide_upto(
            old(bullets)@,
            old(aliens)@,
            sprites@,
            old(aliens)@.len() as int,
        ).0,
        final(aliens)@ == collide_upto(
            old(bullets)@,
            old(aliens)@,
            sprites@,
            old(aliens)@.len() as int,
        ).1,
        hits@ == collide_upto(old(bullets)@, old(aliens)@, sprites@, old(aliens)@.len() as int).2,
        final(bullets)@.len() == old(bullets)@.len(),
        final(aliens)@.len() == old(aliens)@.len(),
        forall|k: int| 0 <= k < final(bullets)@.len() ==> wf_bullet(#[trigger] final(bullets)@[k]),
        forall|k: int| 0 <= k < final(aliens)@.len() ==> wf_alien(#[trigger] final(aliens)@[k]),
        forall|k: int|
            0 <= k < hits@.len() ==> -FX_LIMIT <= (#[trigger] hits@[k]).bullet_x <= FX_LIMIT
                && -FX_LIMIT <= hits@[k].bullet_y <= FX_LIMIT && hits@[k].sprite
                < sprites@.len(),
{
    let bw: i64 = sprites[IX_LASER].f_w;
    let bh: i64 = sprites[IX_LASER].f_h;
    let mut hits: Vec<HitRec> = Vec::new();
    let n: usize = aliens.len();
    let mut i: usize = 0;
    while i < n
        invariant
            i <= n,
            n == old(aliens)@.len(),
            aliens@.len() == n,
            bullets@.len() == old(bullets)@.len(),
            wf_sprites(sprites@),
            bw == sprites@[IX_LASER as int].f_w,
            bh == sprites@[IX_LASER as int].f_h,
            forall|k: int| 0 <= k < bullets@.len() ==> wf_bullet(#[trigger] bullets@[k]),
            forall|k: int| 0 <= k < aliens@.len() ==> wf_alien(#[trigger] aliens@[k]),
            forall|k: int| i <= k < n ==> aliens@[k] == old(aliens)@[k],
            bullets@ == collide_upto(old(bullets)@, old(aliens)@, sprites@, i as int).0,
            aliens@ == collide_upto(old(bullets)@, old(aliens)@, sprites@, i as int).1,
            hits@ == collide_upto(old(bullets)@, old(aliens)@, sprites@, i as int).2,
            forall|k: int|
                0 <= k < hits@.len() ==> -FX_LIMIT <= (#[trigger] hits@[k]).bullet_x <= FX_LIMIT
                    && -FX_LIMIT <= hits@[k].bullet_y <= FX_LIMIT && hits@[k].sprite
                    < sprites@.len(),
        decreases n - i,
    {
        if !aliens[i].dead {
            let spr: usize = aliens[i].sprite;
            let aw: i64 = sprites[spr].f_w;
            let ah: i64 = sprites[spr].f_h;
            let found = find_hit(bullets, aliens[i].xpos, aliens[i].ypos, aw, ah, bw, bh);
            match found {
                Some(j) => {
                    let bx: i64 = bullets[j].xpos;
                    let byy: i64 = bullets[j].ypos;
                    let mut b: Bullet = bullets[j];
                    b.dead = true;
                    bullets.set(j, b);
                    let mut a: Alien = aliens[i];
                    a.dead = true;
                    aliens.set(i, a);
                    hits.push(
                        HitRec { bullet_x: bx, bullet_y: byy, sprite: spr, points: a.points },
                    );
                },
                None => {},
            }
        }
        i = i + 1;
    }
    hits
}

/// Index of the first live bomb at or past `from` whose box overlaps the
/// player box, or -1 when none does.
pub open spec fn first_bomb_hit(
    bombs: Seq<Bomb>,
    px: int,
    pw: int,
    ph: int,
    bw: int,
    bh: int,
    from: int,
) -> int
    decreases bombs.len() - from,
{
    if from < 0 || from >= bombs.len() {
        -1
    } else if !bombs[from].dead && boxes_overlap(
        bombs[from].xpos as int,
        bombs[from].ypos as int,
        bw,
        bh,
        px,
        PLAYER_Y as int,
        pw,
        ph,
    ) {
        from
    } else {
        first_bomb_hit(bombs, px, pw, ph, bw, bh, from + 1)
    }
}

/// The bomb-player collision pass, run only while the player is playing:
/// the first live bomb overlapping the player's box dies, and the hit is
/// reported so the caller can run the player's life-cycle transition.
pub fn collide_bombs_player(
    bombs: &mut Vec<Bomb>,
    player_x: i64,
    playing: bool,
    sprites: &Vec<SpriteSize>,
) -> (hit: bool)
    requires
        wf_sprites(sprites@),
        -FX_LIMIT <= player_x <= FX_LIMIT,
        forall|k: int| 0 <= k < old(bombs)@.len() ==> wf_bomb(#[trigger] old(bombs)@[k]),
    ensures
        ({
            let f = first_bomb_hit(
                old(bombs)@,
                player_x as int,
                sprites@[IX_PLAYER as int].f_w as int,
                sprites@[IX_PLAYER as int].f_h as int,
                sprites@[IX_BOMB as int].f_w as int,
                sprites@[IX_BOMB as int].f_h as int,
                0,
            );
            if !playing || f < 0 {
                final(bombs)@ == old(bombs)@ && !hit
            } else {
                final(bombs)@ == old(bombs)@.update(
                    f,
                    Bomb { dead: true, ..old(bombs)@[f] },
                ) && hit
            }
        }),
        final(bombs)@.len() == old(bombs)@.len(),
        forall|k: int| 0 <= k < final(bombs)@.len() ==> wf_bomb(#[trigger] final(bombs)@[k]),
{
    if !playing {
        return false;
    }
    let pw: i64 = sprites[IX_PLAYER].f_w;
    let ph: i64 = sprites[IX_PLAYER].f_h;
    let bw: i64 = sprites[IX_BOMB].f_w;
    let bh: i64 = sprites[IX_BOMB].f_h;
    let mut j: usize = 0;
    while j < bombs.len()
        invariant
            playing,
            j <= bombs@.len(),
            bombs@ == old(bombs)@,
            wf_sprites(sprites@),
            -FX_LIMIT <= player_x <= FX_LIMIT,
            pw == sprites@[IX_PLAYER as int].f_w,
            ph == sprites@[IX_PLAYER as int].f_h,
            bw == sprites@[IX_BOMB as int].f_w,
            bh == sprites@[IX_BOMB as int].f_h,
            forall|k: int| 0 <= k < bombs@.len() ==> wf_bomb(#[trigger] bombs@[k]),
            first_bomb_hit(
                old(bombs)@,
                player_x as int,
                pw as int,
                ph as int,
                bw as int,
                bh as int,
                0,
            ) == first_bomb_hit(
                old(bombs)@,
                player_x as int,
                pw as int,
                ph as int,
                bw as int,
                bh as int,
                j as int,
            ),
        decreases bombs@.len() - j,
    {
        if !bombs[j].dead && boxes_overlap_exec(
            bombs[j].xpos,
            bombs[j].ypos,
            bw,
            bh,
            player_x,
            PLAYER_Y,
            pw,
            ph,
        ) {
            proof {
                assert(first_bomb_hit(
                    old(bombs)@,
                    player_x as int,
                    pw as int,
                    ph as int,
                    bw as int,
                    bh as int,
                    j as int,
                ) == j);
            }
            let mut b: Bomb = bombs[j];
            b.dead = true;
            bombs.set(j, b);
            proof {
                assert(bombs@ =~= old(bombs)@.update(
                    j as int,
                    Bomb { dead: true, ..old(bombs)@[j as int] },
                ));
            }
            return true;
        }
        j = j + 1;
    }
    false
}

} // verus!

verus! {

/// Collision law: a live bullet whose box overlaps a live alien's box
/// leaves both marked dead and records exactly one hit, placed at the
/// bullet's position and worth the alien's exact point value.
pub proof fn lemma_single_pair_hit(b: Bullet, a: Alien, sprites: Seq<SpriteSize>)
    requires
        !b.dead,
        !a.dead,
        a.sprite < sprites.len(),
        boxes_overlap(
            b.xpos as int,
            b.ypos as int,
            sprites[IX_LASER as int].f_w as int,
            sprites[IX_LASER as int].f_h as int,
            a.xpos as int,
            a.ypos as int,
            sprites[a.sprite as int].f_w as int,
            sprites[a.sprite as int].f_h as int,
        ),
    ensures
        collide_upto(seq![b], seq![a], sprites, 1).0 =~= seq![Bullet { dead: true, ..b }],
        collide_upto(seq![b], seq![a], sprites, 1).1 =~= seq![Alien { dead: true, ..a }],
        collide_upto(seq![b], seq![a], sprites, 1).2 =~= seq![
            HitRec { bullet_x: b.xpos, bullet_y: b.ypos, sprite: a.sprite, points: a.points },
        ],
{
    let bs = seq![b];
    let aliens = seq![a];
    assert(collide_upto(bs, aliens, sprites, 0) == (bs, aliens, Seq::<HitRec>::empty()));
    assert(first_hit(
        bs,
        a.xpos as int,
        a.ypos as int,
        sprites[a.sprite as int].f_w as int,
        sprites[a.sprite as int].f_h as int,
        sprites[IX_LASER as int].f_w as int,
        sprites[IX_LASER as int].f_h as int,
        0,
    ) == 0);
}

/// Miss law: a bullet that crosses the top of the playfield this frame is
/// marked dead by the bullet pass, which touches nothing else — in
/// particular no score.
pub proof fn lemma_miss_is_marked(b: Bullet, dt: int)
    requires
        !b.dead,
        crate::fx::fx_clip(b.ypos - dt * b.velocity / 1_000_000) < 0,
    ensures
        crate::pools::moved_bullet(b, dt).dead,
        crate::pools::is_new_miss(b, dt),
        crate::pools::moved_bullet(b, dt).xpos == b.xpos,
{
}

} // verus!
