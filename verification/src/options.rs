//! The tunables of a game, and the startup check that every other module
//! relies on.

use vstd::prelude::*;
use crate::units::{LENGTH_LIMIT, RATE_LIMIT};

verus! {

/// Most obstacle pairs, clouds or sprite columns that one game may hold.
pub const POOL_LIMIT: u32 = 1024;

/// Deepest floor, in sprite units below the middle of the screen.
pub const FLOOR_LIMIT: i32 = 0x10_0000;

/// The static tunables of one game.
///
/// Lengths and positions share one grain, time steps another; a speed is a
/// length per time grain, and gravity a speed per time grain. Heights of
/// obstacle stacks are counted in sprites.
#[derive(Clone, Copy, Debug)]
pub struct Options {
    /// Side of one sprite.
    pub sprite_size: i64,
    /// Half the width of the screen.
    pub screen_x_boundary: i64,
    /// Half the height of the screen.
    pub screen_y_boundary: i64,
    /// Number of obstacle pairs in the pool.
    pub pipes_number: u32,
    /// Where the first pair stands at setup and after a reset.
    pub pipes_start_x: i64,
    /// Distance between neighbouring pairs at setup.
    pub pipes_gap_between: i64,
    /// Scroll speed of the pairs.
    pub pipes_speed: i64,
    /// Lowest height of a bottom stack, in sprites.
    pub pipe_height_min: u32,
    /// Greatest height of a bottom stack, in sprites.
    pub pipe_height_max: u32,
    /// Height of the opening between the stacks, in sprites.
    pub pipe_y_gap: u32,
    /// Row of the floor, in sprites; the ceiling is its mirror image.
    pub pipe_floor_y: i32,
    /// Sprite columns of one stack.
    pub pipe_width: u32,
    /// The player's fixed horizontal position.
    pub player_x: i64,
    /// The height at which the player spawns.
    pub player_start_y: i64,
    /// Upward speed given by a jump.
    pub jump_force: i64,
    /// Downward acceleration while a run is on.
    pub gravity: i64,
    /// How far under the start height the idle hover turns around.
    pub idle_drop: i64,
    /// Steepest downward tilt.
    pub min_rotation: i64,
    /// Steepest upward tilt.
    pub max_rotation: i64,
    /// Angular speed of the tilt while falling.
    pub rotation_speed: i64,
    /// Number of clouds.
    pub clouds_number: u32,
    /// Where the first cloud stands at setup.
    pub clouds_start_x: i64,
    /// Distance between neighbouring clouds at setup.
    pub clouds_gap_between: i64,
    /// Lowest height of a cloud.
    pub clouds_y_min: i64,
    /// Greatest height of a cloud.
    pub clouds_y_max: i64,
    /// Drift speed of the clouds.
    pub clouds_speed: i64,
    /// Sprites in one cloud.
    pub cloud_width: u32,
    /// Width of one hill.
    pub hill_width: i64,
    /// Height of one hill.
    pub hill_height: i64,
}

/// What a startup check can find wrong with a set of tunables.
#[derive(Clone, Copy, Debug, PartialEq, Eq, Structural)]
pub enum OptionsError {
    /// The sprite side is not positive, or too large.
    SpriteSize,
    /// A screen half-extent is not positive, or too large.
    Screen,
    /// The floor is above the middle of the screen, or too deep.
    Floor,
    /// The height range is empty.
    HeightRange,
    /// The tallest bottom stack and the opening leave a negative top stack.
    NegativeTopStack,
    /// A stack has no sprite column, or too many.
    PipeWidth,
    /// The pool is too large, or its layout or speed is out of range.
    PipeLayout,
    /// A player tunable is out of range.
    Player,
    /// The level tilt is outside the tilt range, or the range is too wide.
    Rotation,
    /// A cloud tunable is out of range.
    Clouds,
    /// A hill dimension is not positive, or too large.
    Hills,
}

/// `v` is a length of at most the limit in either direction.
pub open spec fn within_length(v: i64) -> bool {
    -(LENGTH_LIMIT as int) <= v <= LENGTH_LIMIT as int
}

/// `v` is a speed or acceleration that is not negative and at most the limit.
pub open spec fn within_rate(v: i64) -> bool {
    0 <= v <= RATE_LIMIT as int
}

impl Options {
    pub open spec fn sprite_ok(&self) -> bool {
        0 < self.sprite_size <= LENGTH_LIMIT
    }

    pub open spec fn screen_ok(&self) -> bool {
        &&& 0 < self.screen_x_boundary <= LENGTH_LIMIT
        &&& 0 < self.screen_y_boundary <= LENGTH_LIMIT
    }

    pub open spec fn floor_ok(&self) -> bool {
        -(FLOOR_LIMIT as int) <= self.pipe_floor_y <= 0
    }

    pub open spec fn height_range_ok(&self) -> bool {
        self.pipe_height_min <= self.pipe_height_max
    }

    pub open spec fn top_stack_ok(&self) -> bool {
        self.pipe_height_max + self.pipe_y_gap <= self.total_units()
    }

    pub open spec fn pipe_width_ok(&self) -> bool {
        1 <= self.pipe_width <= POOL_LIMIT
    }

    pub open spec fn pipe_layout_ok(&self) -> bool {
        &&& self.pipes_number <= POOL_LIMIT
        &&& within_length(self.pipes_start_x)
        &&& 0 <= self.pipes_gap_between <= LENGTH_LIMIT
        &&& within_rate(self.pipes_speed)
    }

    pub open spec fn player_ok(&self) -> bool {
        &&& within_length(self.player_x)
        &&& within_length(self.player_start_y)
        &&& 0 <= self.idle_drop <= LENGTH_LIMIT
        &&& within_rate(self.gravity)
    }

    pub open spec fn rotation_ok(&self) -> bool {
        &&& -(LENGTH_LIMIT as int) <= self.min_rotation <= 0
        &&& 0 <= self.max_rotation <= LENGTH_LIMIT
        &&& within_rate(self.rotation_speed)
    }

    pub open spec fn clouds_ok(&self) -> bool {
        &&& self.clouds_number <= POOL_LIMIT
        &&& self.cloud_width <= POOL_LIMIT
        &&& within_length(self.clouds_start_x)
        &&& 0 <= self.clouds_gap_between <= LENGTH_LIMIT
        &&& within_length(self.clouds_y_min)
        &&& within_length(self.clouds_y_max)
        &&& self.clouds_y_min <= self.clouds_y_max
        &&& within_rate(self.clouds_speed)
    }

    pub open spec fn hills_ok(&self) -> bool {
        &&& 0 < self.hill_width <= LENGTH_LIMIT
        &&& 0 < self.hill_height <= LENGTH_LIMIT
    }

    /// The tunables are usable: every stack has a height of zero or more,
    /// and no position that a game computes from them overflows.
    pub open spec fn valid(&self) -> bool {
        &&& self.sprite_ok()
        &&& self.screen_ok()
        &&& self.floor_ok()
        &&& self.height_range_ok()
        &&& self.top_stack_ok()
        &&& self.pipe_width_ok()
        &&& self.pipe_layout_ok()
        &&& self.player_ok()
        &&& self.rotation_ok()
        &&& self.clouds_ok()
        &&& self.hills_ok()
    }

    /// The first thing wrong with the tunables, in the order of the error's
    /// variants.
    pub open spec fn first_fault(&self) -> Option<OptionsError> {
        if !self.sprite_ok() {
            Some(OptionsError::SpriteSize)
        } else if !self.screen_ok() {
            Some(OptionsError::Screen)
        } else if !self.floor_ok() {
            Some(OptionsError::Floor)
        } else if !self.height_range_ok() {
            Some(OptionsError::HeightRange)
        } else if !self.top_stack_ok() {
            Some(OptionsError::NegativeTopStack)
        } else if !self.pipe_width_ok() {
            Some(OptionsError::PipeWidth)
        } else if !self.pipe_layout_ok() {
            Some(OptionsError::PipeLayout)
        } else if !self.player_ok() {
            Some(OptionsError::Player)
        } else if !self.rotation_ok() {
            Some(OptionsError::Rotation)
        } else if !self.clouds_ok() {
            Some(OptionsError::Clouds)
        } else if !self.hills_ok() {
            Some(OptionsError::Hills)
        } else {
            None
        }
    }

    /// Rows between floor and ceiling, in sprites.
    pub open spec fn total_units(&self) -> int {
        -2 * self.pipe_floor_y
    }

    /// Height of the top stack over a bottom stack of `bottom` sprites.
    pub open spec fn top_units(&self, bottom: int) -> int {
        self.total_units() - bottom - self.pipe_y_gap
    }

    /// Horizontal offset of sprite column `column` from a pair's position:
    /// half a sprite per column.
    pub open spec fn column_offset(&self, column: int) -> int {
        column * self.sprite_size / 2
    }

    /// Width of a pair: from its position to the far edge of its last column.
    pub open spec fn pipe_span(&self) -> int {
        self.column_offset(self.pipe_width - 1) + self.sprite_size
    }

    /// Half the width of a pair: how far to either side of its position the
    /// pair can touch the player.
    pub open spec fn pipe_half_span(&self) -> int {
        self.pipe_span() / 2
    }

    /// Upper edge of a bottom stack of `bottom` sprites.
    pub open spec fn bottom_stack_top(&self, bottom: int) -> int {
        (self.pipe_floor_y + bottom) * self.sprite_size
    }

    /// Lower edge of the top stack over a bottom stack of `bottom` sprites.
    pub open spec fn top_stack_bottom(&self, bottom: int) -> int {
        (self.pipe_floor_y + bottom + self.pipe_y_gap) * self.sprite_size
    }

    /// Distance between neighbouring pairs after a reset of a pool of
    /// `count` pairs: the pool tiles the width of the screen.
    pub open spec fn reset_spacing(&self, count: int) -> int {
        if count > 0 {
            2 * self.screen_x_boundary / count
        } else {
            0
        }
    }

    /// Where a recycled pair reappears: one sprite past the right edge.
    pub open spec fn recycle_x(&self) -> int {
        self.screen_x_boundary + self.sprite_size
    }

    /// The stock tuning, with lengths in millionths of a pixel, angles in
    /// millionths of a radian and time in milliseconds.
    pub fn standard() -> (opts: Options)
        ensures
            opts.valid(),
            opts.sprite_size == 64_000_000,
            opts.screen_x_boundary == 800_000_000,
            opts.screen_y_boundary == 500_000_000,
            opts.pipes_number == 5,
            opts.pipes_start_x == 280_000_000,
            opts.pipes_gap_between == 350_000_000,
            opts.pipes_speed == 250_000,
            opts.pipe_height_min == 3,
            opts.pipe_height_max == 9,
            opts.pipe_y_gap == 4,
            opts.pipe_floor_y == -8,
            opts.pipe_width == 2,
            opts.player_x == -64_000_000,
            opts.player_start_y == -200_000_000,
            opts.jump_force == 10_000,
            opts.gravity == 30,
            opts.idle_drop == 20_000_000,
            opts.min_rotation == -400_000,
            opts.max_rotation == 400_000,
            opts.rotation_speed == 3_000,
            opts.clouds_number == 8,
            opts.clouds_start_x == -992_000_000,
            opts.clouds_gap_between == 250_000_000,
            opts.clouds_y_min == -150_000_000,
            opts.clouds_y_max == 300_000_000,
            opts.clouds_speed == 14_000,
            opts.cloud_width == 2,
            opts.hill_width == 128_000_000,
            opts.hill_height == 128_000_000,
    {
        Options {
            sprite_size: 64_000_000,
            screen_x_boundary: 800_000_000,
            screen_y_boundary: 500_000_000,
            pipes_number: 5,
            pipes_start_x: 280_000_000,
            pipes_gap_between: 350_000_000,
            pipes_speed: 250_000,
            pipe_height_min: 3,
            pipe_height_max: 9,
            pipe_y_gap: 4,
            pipe_floor_y: -8,
            pipe_width: 2,
            player_x: -64_000_000,
            player_start_y: -200_000_000,
            jump_force: 10_000,
            gravity: 30,
            idle_drop: 20_000_000,
            min_rotation: -400_000,
            max_rotation: 400_000,
            rotation_speed: 3_000,
            clouds_number: 8,
            clouds_start_x: -992_000_000,
            clouds_gap_between: 250_000_000,
            clouds_y_min: -150_000_000,
            clouds_y_max: 300_000_000,
            clouds_speed: 14_000,
            cloud_width: 2,
            hill_width: 128_000_000,
            hill_height: 128_000_000,
        }
    }

    /// The startup check: accepts exactly the valid tunables, and names the
    /// first fault of the others.
    pub fn validate(&self) -> (r: Result<(), OptionsError>)
        ensures
            r.is_ok() <==> self.valid(),
            r == match self.first_fault() {
                Some(e) => Err::<(), OptionsError>(e),
                None => Ok(()),
            },
    {
        if !(0 < self.sprite_size && self.sprite_size <= LENGTH_LIMIT) {
            return Err(OptionsError::SpriteSize);
        }
        if !(0 < self.screen_x_boundary && self.screen_x_boundary <= LENGTH_LIMIT
            && 0 < self.screen_y_boundary && self.screen_y_boundary <= LENGTH_LIMIT) {
            return Err(OptionsError::Screen);
        }
        if !(-FLOOR_LIMIT <= self.pipe_floor_y && self.pipe_floor_y <= 0) {
            return Err(OptionsError::Floor);
        }
        if !(self.pipe_height_min <= self.pipe_height_max) {
            return Err(OptionsError::HeightRange);
        }
        let total: i64 = -2 * (self.pipe_floor_y as i64);
        if !(self.pipe_height_max as i64 + self.pipe_y_gap as i64 <= total) {
            return Err(OptionsError::NegativeTopStack);
        }
        if !(1 <= self.pipe_width && self.pipe_width <= POOL_LIMIT) {
            return Err(OptionsError::PipeWidth);
        }
        if !(self.pipes_number <= POOL_LIMIT && in_length(self.pipes_start_x)
            && 0 <= self.pipes_gap_between && self.pipes_gap_between <= LENGTH_LIMIT
            && in_rate(self.pipes_speed)) {
            return Err(OptionsError::PipeLayout);
        }
        if !(in_length(self.player_x) && in_length(self.player_start_y) && 0 <= self.idle_drop
            && self.idle_drop <= LENGTH_LIMIT && in_rate(self.gravity)) {
            return Err(OptionsError::Player);
        }
        if !(-LENGTH_LIMIT <= self.min_rotation && self.min_rotation <= 0 && 0
            <= self.max_rotation && self.max_rotation <= LENGTH_LIMIT && in_rate(
            self.rotation_speed,
        )) {
            return Err(OptionsError::Rotation);
        }
        if !(self.clouds_number <= POOL_LIMIT && self.cloud_width <= POOL_LIMIT && in_length(
            self.clouds_start_x,
        ) && 0 <= self.clouds_gap_between && self.clouds_gap_between <= LENGTH_LIMIT
            && in_length(self.clouds_y_min) && in_length(self.clouds_y_max) && self.clouds_y_min
            <= self.clouds_y_max && in_rate(self.clouds_speed)) {
            return Err(OptionsError::Clouds);
        }
        if !(0 < self.hill_width && self.hill_width <= LENGTH_LIMIT && 0 < self.hill_height
            && self.hill_height <= LENGTH_LIMIT) {
            return Err(OptionsError::Hills);
        }
        Ok(())
    }

    /// Rows between floor and ceiling, in sprites.
    pub fn total_height_units(&self) -> (r: u32)
        requires
            self.valid(),
        ensures
            r == self.total_units(),
    {
        (-2 * (self.pipe_floor_y as i64)) as u32
    }

    /// Height of the top stack over a bottom stack of `bottom` sprites.
    pub fn top_height_units(&self, bottom: u32) -> (r: u32)
        requires
            self.valid(),
            bottom <= self.pipe_height_max,
        ensures
            r == self.top_units(bottom as int),
    {
        self.total_height_units() - bottom - self.pipe_y_gap
    }

    /// Horizontal offset of sprite column `column`.
    pub fn column_offset_of(&self, column: u32) -> (r: i64)
        requires
            self.valid(),
            column <= POOL_LIMIT,
        ensures
            r == self.column_offset(column as int),
            0 <= r <= column * self.sprite_size,
            r <= 0x4_0000_0000_0000,
    {
        assert(0 <= column * self.sprite_size <= 0x4_0000_0000_0000) by (nonlinear_arith)
            requires
                0 <= column <= 1024,
                0 < self.sprite_size <= 0x100_0000_0000,
        ;
        (column as i64) * self.sprite_size / 2
    }

    /// Half the width of a pair.
    pub fn pipe_half_width(&self) -> (r: i64)
        requires
            self.valid(),
        ensures
            r == self.pipe_half_span(),
            0 <= r <= 0x4_0000_0000_0000,
    {
        let last: i64 = self.column_offset_of(self.pipe_width - 1);
        (last + self.sprite_size) / 2
    }

    /// Upper edge of a bottom stack of `bottom` sprites.
    pub fn bottom_stack_top_of(&self, bottom: u32) -> (r: i64)
        requires
            self.valid(),
            bottom <= self.pipe_height_max,
        ensures
            r == self.bottom_stack_top(bottom as int),
    {
        let row: i64 = self.pipe_floor_y as i64 + bottom as i64;
        proof {
            lemma_row_times_sprite(row as int, self.sprite_size as int);
        }
        row * self.sprite_size
    }

    /// Lower edge of the top stack over a bottom stack of `bottom` sprites.
    pub fn top_stack_bottom_of(&self, bottom: u32) -> (r: i64)
        requires
            self.valid(),
            bottom <= self.pipe_height_max,
        ensures
            r == self.top_stack_bottom(bottom as int),
    {
        let row: i64 = self.pipe_floor_y as i64 + bottom as i64 + self.pipe_y_gap as i64;
        proof {
            lemma_row_times_sprite(row as int, self.sprite_size as int);
        }
        row * self.sprite_size
    }

    /// Where a recycled pair reappears.
    pub fn recycle_position(&self) -> (r: i64)
        requires
            self.valid(),
        ensures
            r == self.recycle_x(),
    {
        self.screen_x_boundary + self.sprite_size
    }

    /// Distance between neighbouring pairs after a reset of `count` pairs.
    pub fn reset_spacing_of(&self, count: usize) -> (r: i64)
        requires
            self.valid(),
        ensures
            r == self.reset_spacing(count as int),
            0 <= r <= 2 * self.screen_x_boundary,
            count as int * r <= 2 * self.screen_x_boundary,
    {
        if count == 0 {
            0
        } else {
            let whole: i128 = 2 * (self.screen_x_boundary as i128);
            let step: i128 = whole / (count as i128);
            proof {
                vstd::arithmetic::div_mod::lemma_fundamental_div_mod(whole as int, count as int);
                vstd::arithmetic::div_mod::lemma_div_pos_is_pos(whole as int, count as int);
                vstd::arithmetic::div_mod::lemma_mod_pos_bound(whole as int, count as int);
                assert(step <= whole) by (nonlinear_arith)
                    requires
                        whole == count * step + whole % (count as i128),
                        0 <= whole % (count as i128),
                        count >= 1,
                        step >= 0,
                ;
            }
            step as i64
        }
    }
}

/// With valid tunables, the top stack over any bottom stack of a height in
/// the configured range has a height of zero or more.
pub proof fn lemma_top_stack_not_negative(opts: Options, bottom: int)
    requires
        opts.valid(),
        opts.pipe_height_min <= bottom <= opts.pipe_height_max,
    ensures
        opts.top_units(bottom) >= 0,
        bottom + opts.pipe_y_gap + opts.top_units(bottom) == opts.total_units(),
{
}

/// A row of the stacks times the sprite side stays well inside 64 bits.
pub(crate) proof fn lemma_row_times_sprite(row: int, sprite: int)
    requires
        -0x20_0000 <= row <= 0x20_0000,
        0 < sprite <= LENGTH_LIMIT,
    ensures
        -0x2000_0000_0000_0000 <= row * sprite <= 0x2000_0000_0000_0000,
{
    assert(-0x2000_0000_0000_0000 <= row * sprite <= 0x2000_0000_0000_0000) by (nonlinear_arith)
        requires
            -0x20_0000 <= row <= 0x20_0000,
            0 < sprite <= 0x100_0000_0000,
    ;
}

fn in_length(v: i64) -> (r: bool)
    ensures
        r == within_length(v),
{
    -LENGTH_LIMIT <= v && v <= LENGTH_LIMIT
}

fn in_rate(v: i64) -> (r: bool)
    ensures
        r == within_rate(v),
{
    0 <= v && v <= RATE_LIMIT
}

} // verus!
