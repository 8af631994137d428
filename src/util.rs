use vstd::prelude::*;
use crate::config::SpriteConfig;

verus! {

/// Frames in one animation cycle.
pub const ANIMATION_FRAMES: usize = 6;

/// Sheet row that holds the enemy's frames.
pub const ENEMY_SPRITE_ROW: u32 = 3;

/// Index of the sprite at `row_id`, `col_id` in the sheet, counted row by row.
pub fn get_sprite_index(row_id: u32, col_id: u32, sprite: &SpriteConfig) -> (r: usize)
    requires
        sprite.wf(),
        row_id < sprite.spritesheet_height,
        col_id < sprite.spritesheet_width,
    ensures
        r as int == row_id as int * sprite.spritesheet_width as int + col_id as int,
{
    let w = sprite.spritesheet_width;
    let h = sprite.spritesheet_height;
    assert((row_id as int) * (w as int) + (col_id as int) < (h as int) * (w as int)) by (nonlinear_arith)
        requires row_id < h, col_id < w;
    assert(row_id as int * w as int >= 0) by (nonlinear_arith);
    (row_id * w + col_id) as usize
}

/// The player's next animation frame: frames `0..ANIMATION_FRAMES` in a cycle.
pub fn next_player_frame(index: usize) -> (r: usize)
    requires
        index < usize::MAX,
    ensures
        r as int == (index as int + 1) % (ANIMATION_FRAMES as int),
{
    (index + 1) % ANIMATION_FRAMES
}

/// The enemy's next animation frame, in the enemy row of the sheet.
pub fn next_enemy_frame(index: usize, sprite: &SpriteConfig) -> (r: usize)
    requires
        sprite.wf(),
        index < usize::MAX,
        ENEMY_SPRITE_ROW < sprite.spritesheet_height,
    ensures
        r as int == ENEMY_SPRITE_ROW as int * sprite.spritesheet_width as int
            + ((index as int + 1) % (sprite.spritesheet_width as int)) % (ANIMATION_FRAMES as int),
{
    let base = get_sprite_index(ENEMY_SPRITE_ROW, 0, sprite);
    let w = sprite.spritesheet_width;
    let step = ((index + 1) % (w as usize)) % ANIMATION_FRAMES;
    assert(3 * (w as int) + (w as int) <= sprite.spritesheet_height as int * w as int) by (nonlinear_arith)
        requires sprite.spritesheet_height >= 4, w >= 1;
    assert(step < w);
    base + step
}

/// A repeating timer that paces animation frames, in milliseconds.
#[derive(Clone, Copy, Debug, PartialEq, Eq, Structural)]
pub struct AnimationTimer {
    pub elapsed: u64,
    pub duration: u64,
}

impl AnimationTimer {
    pub open spec fn wf(&self) -> bool {
        0 < self.duration && self.elapsed < self.duration
    }

    /// A timer of `duration` milliseconds, just started.
    pub fn new(duration: u64) -> (r: AnimationTimer)
        requires
            duration > 0,
        ensures
            r.wf(),
            r.elapsed == 0,
            r.duration == duration,
    {
        AnimationTimer { elapsed: 0, duration }
    }

    /// Advances the timer by `dt` milliseconds, wrapping round each full period; tells
    /// whether a period ended during this step.
    pub fn tick(&mut self, dt: u64) -> (just_finished: bool)
        requires
            old(self).wf(),
        ensures
            final(self).wf(),
            final(self).duration == old(self).duration,
            final(self).elapsed == (old(self).elapsed + dt) % (old(self).duration as int),
            just_finished == (old(self).elapsed + dt >= old(self).duration),
    {
        let total: u128 = self.elapsed as u128 + dt as u128;
        let finished = total >= self.duration as u128;
        self.elapsed = (total % self.duration as u128) as u64;
        finished
    }
}

} // verus!
