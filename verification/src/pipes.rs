//! The pool of obstacle pairs: how a pair is built from sprites, how it is
//! recycled, and what one tick does to the pool, the score and the player.

use vstd::prelude::*;
use crate::game_controller::GameController;
use crate::options::{lemma_row_times_sprite, lemma_top_stack_not_negative, Options};
use crate::player::{Player, PlayerView};
use crate::random::draw_in_range;
use crate::units::{gain, gain_of, POSITION_LIMIT};

verus! {

/// One sprite of an obstacle stack.
#[derive(Clone, Copy, Debug, PartialEq, Eq, Structural)]
pub struct PipeBlock {
    /// Horizontal position of the sprite.
    pub x: i64,
    /// Vertical position of the sprite.
    pub y: i64,
    /// The sprite is the cap that closes the stack at the opening.
    pub end_cap: bool,
    /// The sprite is mirrored left to right.
    pub flip_x: bool,
    /// The sprite is mirrored top to bottom: it belongs to the top stack.
    pub flip_y: bool,
}

/// A sprite of a stack as a mathematical value.
pub struct PipeBlockView {
    pub x: int,
    pub y: int,
    pub end_cap: bool,
    pub flip_x: bool,
    pub flip_y: bool,
}

impl View for PipeBlock {
    type V = PipeBlockView;

    open spec fn view(&self) -> PipeBlockView {
        PipeBlockView {
            x: self.x as int,
            y: self.y as int,
            end_cap: self.end_cap,
            flip_x: self.flip_x,
            flip_y: self.flip_y,
        }
    }
}

/// The sprites of a list, each as a mathematical value.
pub open spec fn block_views(blocks: Seq<PipeBlock>) -> Seq<PipeBlockView> {
    Seq::new(blocks.len(), |k: int| blocks[k]@)
}

/// Sprite `k` of a stack of `rows` rows at `x`: row `k / width`, column
/// `k % width`. Rows of the bottom stack climb from the floor, rows of the
/// top stack descend from the ceiling; the last row is the cap, and the last
/// column is mirrored.
pub open spec fn stack_block(opts: Options, x: int, rows: int, top: bool, k: int) -> PipeBlockView {
    let row = k / (opts.pipe_width as int);
    let column = k % (opts.pipe_width as int);
    PipeBlockView {
        x: x + opts.column_offset(column),
        y: if top {
            (-opts.pipe_floor_y - row) * opts.sprite_size
        } else {
            (opts.pipe_floor_y + row) * opts.sprite_size
        },
        end_cap: row + 1 == rows,
        flip_x: column + 1 == opts.pipe_width,
        flip_y: top,
    }
}

/// The first `count` sprites of a stack of `rows` rows at `x`.
pub open spec fn stack_prefix(opts: Options, x: int, rows: int, top: bool, count: int) -> Seq<
    PipeBlockView,
> {
    Seq::new(count as nat, |k: int| stack_block(opts, x, rows, top, k))
}

/// All the sprites of a stack of `rows` rows at `x`, row by row.
pub open spec fn stack_blocks(opts: Options, x: int, rows: int, top: bool) -> Seq<PipeBlockView> {
    stack_prefix(opts, x, rows, top, rows * opts.pipe_width)
}

/// The sprites of a pair at `x` whose bottom stack is `height` sprites
/// high: the bottom stack from the floor up, then the top stack from the
/// ceiling down.
pub open spec fn pipe_blocks(opts: Options, x: int, height: int) -> Seq<PipeBlockView> {
    stack_blocks(opts, x, height, false) + stack_blocks(opts, x, opts.top_units(height), true)
}

/// One obstacle pair: a bottom and a top stack at one horizontal position,
/// with an opening of fixed height between them.
#[derive(Debug)]
pub struct PipeParent {
    /// Horizontal position of the pair.
    pub x: i64,
    /// Height of the bottom stack, in sprites.
    pub height_sprites: u32,
    /// Height of the opening, in sprites.
    pub y_gap_sprites: u32,
    /// The player has been given the point for this pair.
    pub passed_score: bool,
    /// The sprites of both stacks.
    pub blocks: Vec<PipeBlock>,
}

/// An obstacle pair as a mathematical value.
pub struct PipeView {
    pub x: int,
    pub height: int,
    pub gap: int,
    pub passed: bool,
    pub blocks: Seq<PipeBlockView>,
}

impl View for PipeParent {
    type V = PipeView;

    open spec fn view(&self) -> PipeView {
        PipeView {
            x: self.x as int,
            height: self.height_sprites as int,
            gap: self.y_gap_sprites as int,
            passed: self.passed_score,
            blocks: block_views(self.blocks@),
        }
    }
}

/// The pair that stands at `x` with a bottom stack of `height` sprites,
/// freshly built and not yet passed.
pub open spec fn fresh_pipe(opts: Options, x: int, height: int) -> PipeView {
    PipeView {
        x,
        height,
        gap: opts.pipe_y_gap as int,
        passed: false,
        blocks: pipe_blocks(opts, x, height),
    }
}

/// The pair is one that the tunables allow: its height is in the range, its
/// opening is the configured one, and its sprites are where its position and
/// height put them.
pub open spec fn pipe_wf(pipe: PipeView, opts: Options) -> bool {
    &&& -(POSITION_LIMIT as int) <= pipe.x <= POSITION_LIMIT as int
    &&& opts.pipe_height_min <= pipe.height <= opts.pipe_height_max
    &&& pipe.gap == opts.pipe_y_gap
    &&& pipe.blocks == pipe_blocks(opts, pipe.x, pipe.height)
}

/// Row `row`, column `column` of a stack is sprite `row * width + column`.
proof fn lemma_block_index(width: int, row: int, column: int)
    requires
        0 < width,
        0 <= column < width,
    ensures
        (row * width + column) / width == row,
        (row * width + column) % width == column,
{
    vstd::arithmetic::div_mod::lemma_fundamental_div_mod_converse(
        row * width + column,
        width,
        row,
        column,
    );
}

/// Appends the sprites of one stack of `rows` rows at `x`.
fn spawn_stack(blocks: &mut Vec<PipeBlock>, opts: &Options, x: i64, rows: u32, top: bool)
    requires
        opts.valid(),
        -POSITION_LIMIT <= x <= POSITION_LIMIT,
        rows <= opts.total_units(),
    ensures
        block_views(final(blocks)@) == block_views(old(blocks)@) + stack_blocks(
            *opts,
            x as int,
            rows as int,
            top,
        ),
{
    let ghost before = block_views(blocks@);
    let width: u32 = opts.pipe_width;
    let mut i: u32 = 0;
    while i < rows
        invariant
            opts.valid(),
            -POSITION_LIMIT <= x <= POSITION_LIMIT,
            rows <= opts.total_units(),
            width == opts.pipe_width,
            i <= rows,
            block_views(blocks@) == before + stack_prefix(
                *opts,
                x as int,
                rows as int,
                top,
                i * width,
            ),
        decreases rows - i,
    {
        let row: i64 = if top {
            -(opts.pipe_floor_y as i64) - i as i64
        } else {
            opts.pipe_floor_y as i64 + i as i64
        };
        proof {
            lemma_row_times_sprite(row as int, opts.sprite_size as int);
        }
        let y: i64 = row * opts.sprite_size;
        let mut j: u32 = 0;
        while j < width
            invariant
                opts.valid(),
                -POSITION_LIMIT <= x <= POSITION_LIMIT,
                width == opts.pipe_width,
                i < rows,
                j <= width,
                y == if top {
                    (-opts.pipe_floor_y - i) * opts.sprite_size
                } else {
                    (opts.pipe_floor_y + i) * opts.sprite_size
                },
                block_views(blocks@) == before + stack_prefix(
                    *opts,
                    x as int,
                    rows as int,
                    top,
                    i * width + j,
                ),
            decreases width - j,
        {
            let offset: i64 = opts.column_offset_of(j);
            let block = PipeBlock {
                x: x + offset,
                y,
                end_cap: i + 1 == rows,
                flip_x: j + 1 == width,
                flip_y: top,
            };
            let ghost earlier = blocks@;
            blocks.push(block);
            proof {
                lemma_block_index(width as int, i as int, j as int);
                let count = i * width + j;
                assert(block@ == stack_block(*opts, x as int, rows as int, top, count));
                assert(block_views(blocks@) =~= block_views(earlier).push(block@));
                assert(stack_prefix(*opts, x as int, rows as int, top, count + 1)
                    =~= stack_prefix(*opts, x as int, rows as int, top, count).push(block@));
                assert(block_views(blocks@) =~= before + stack_prefix(
                    *opts,
                    x as int,
                    rows as int,
                    top,
                    count + 1,
                ));
            }
            j = j + 1;
        }
        proof {
            assert(i * width + width == (i + 1) * width) by (nonlinear_arith);
        }
        i = i + 1;
    }
}

impl PipeParent {
    /// Appends the sprites of both stacks for the pair's position and
    /// height: the bottom stack first, from the floor up, then the top stack,
    /// from the ceiling down.
    pub fn spawn_blocks(&mut self, opts: &Options)
        requires
            opts.valid(),
            -POSITION_LIMIT <= old(self).x <= POSITION_LIMIT,
            old(self).height_sprites <= opts.pipe_height_max,
        ensures
            final(self)@ == (PipeView {
                blocks: old(self)@.blocks + pipe_blocks(
                    *opts,
                    old(self).x as int,
                    old(self).height_sprites as int,
                ),
                ..old(self)@
            }),
    {
        let ghost before = block_views(self.blocks@);
        let top: u32 = opts.top_height_units(self.height_sprites);
        spawn_stack(&mut self.blocks, opts, self.x, self.height_sprites, false);
        spawn_stack(&mut self.blocks, opts, self.x, top, true);
        assert(block_views(self.blocks@) =~= before + pipe_blocks(
            *opts,
            self.x as int,
            self.height_sprites as int,
        ));
    }

    /// Puts the pair at `x` with a bottom stack of `height` sprites: the
    /// point flag is cleared and every sprite is built anew.
    pub fn rebuild(&mut self, opts: &Options, x: i64, height: u32)
        requires
            opts.valid(),
            -POSITION_LIMIT <= x <= POSITION_LIMIT,
            opts.pipe_height_min <= height <= opts.pipe_height_max,
        ensures
            final(self)@ == fresh_pipe(*opts, x as int, height as int),
            pipe_wf(final(self)@, *opts),
    {
        self.passed_score = false;
        self.x = x;
        self.height_sprites = height;
        self.y_gap_sprites = opts.pipe_y_gap;
        self.blocks.clear();
        self.spawn_blocks(opts);
        assert(self@.blocks =~= pipe_blocks(*opts, x as int, height as int));
    }

    /// Recycles the pair to `x`: draws a new height for the bottom stack
    /// from the configured range, clears the point flag and builds every
    /// sprite anew.
    pub fn reset(&mut self, opts: &Options, x: i64)
        requires
            opts.valid(),
            -POSITION_LIMIT <= x <= POSITION_LIMIT,
        ensures
            opts.pipe_height_min <= final(self).height_sprites <= opts.pipe_height_max,
            opts.top_units(final(self).height_sprites as int) >= 0,
            final(self)@ == fresh_pipe(*opts, x as int, final(self).height_sprites as int),
            pipe_wf(final(self)@, *opts),
    {
        let new_height: u32 = draw_height(opts);
        self.rebuild(opts, x, new_height);
    }

    /// A pair at `x` with a bottom stack of `height` sprites.
    pub fn with_height(opts: &Options, x: i64, height: u32) -> (pipe: PipeParent)
        requires
            opts.valid(),
            -POSITION_LIMIT <= x <= POSITION_LIMIT,
            opts.pipe_height_min <= height <= opts.pipe_height_max,
        ensures
            pipe@ == fresh_pipe(*opts, x as int, height as int),
            pipe_wf(pipe@, *opts),
    {
        let mut pipe = PipeParent {
            x,
            height_sprites: height,
            y_gap_sprites: opts.pipe_y_gap,
            passed_score: false,
            blocks: Vec::new(),
        };
        pipe.spawn_blocks(opts);
        assert(pipe@.blocks =~= pipe_blocks(*opts, x as int, height as int));
        pipe
    }

    /// Whether the pair is one that the tunables allow.
    pub fn is_well_formed(&self, opts: &Options) -> (r: bool)
        requires
            opts.valid(),
        ensures
            r == pipe_wf(self@, *opts),
    {
        if !(-POSITION_LIMIT <= self.x && self.x <= POSITION_LIMIT && opts.pipe_height_min
            <= self.height_sprites && self.height_sprites <= opts.pipe_height_max
            && self.y_gap_sprites == opts.pipe_y_gap) {
            return false;
        }
        let model = PipeParent::with_height(opts, self.x, self.height_sprites);
        if model.blocks.len() != self.blocks.len() {
            assert(model@.blocks.len() != self@.blocks.len());
            return false;
        }
        let count: usize = self.blocks.len();
        let mut k: usize = 0;
        while k < count
            invariant
                count == self.blocks.len(),
                count == model.blocks.len(),
                k <= count,
                -POSITION_LIMIT <= self.x <= POSITION_LIMIT,
                opts.pipe_height_min <= self.height_sprites <= opts.pipe_height_max,
                self.y_gap_sprites == opts.pipe_y_gap,
                model@.blocks == pipe_blocks(*opts, self.x as int, self.height_sprites as int),
                forall|j: int| 0 <= j < k ==> (#[trigger] self.blocks[j])@ == model.blocks[j]@,
            decreases count - k,
        {
            let mine = self.blocks[k];
            let other = model.blocks[k];
            if !(mine.x == other.x && mine.y == other.y && mine.end_cap == other.end_cap
                && mine.flip_x == other.flip_x && mine.flip_y == other.flip_y) {
                assert(self@.blocks[k as int] != model@.blocks[k as int]);
                return false;
            }
            k = k + 1;
        }
        assert(self@.blocks =~= model@.blocks);
        true
    }

    /// Height of the top stack, in sprites.
    pub fn top_height_sprites(&self, opts: &Options) -> (r: u32)
        requires
            opts.valid(),
            pipe_wf(self@, *opts),
        ensures
            r == opts.top_units(self.height_sprites as int),
    {
        opts.top_height_units(self.height_sprites)
    }
}

/// Draws the height of a bottom stack from the configured range.
pub fn draw_height(opts: &Options) -> (height: u32)
    requires
        opts.valid(),
    ensures
        opts.pipe_height_min <= height <= opts.pipe_height_max,
{
    let drawn: i64 = draw_in_range(opts.pipe_height_min as i64, opts.pipe_height_max as i64);
    drawn as u32
}

/// A new pair at `x`, with a height drawn from the configured range.
pub fn spawn_pipe(opts: &Options, x: i64) -> (pipe: PipeParent)
    requires
        opts.valid(),
        -POSITION_LIMIT <= x <= POSITION_LIMIT,
    ensures
        opts.pipe_height_min <= pipe.height_sprites <= opts.pipe_height_max,
        opts.top_units(pipe.height_sprites as int) >= 0,
        pipe@ == fresh_pipe(*opts, x as int, pipe.height_sprites as int),
        pipe_wf(pipe@, *opts),
{
    let height: u32 = draw_height(opts);
    PipeParent::with_height(opts, x, height)
}

/// Where pair `index` stands at setup: the pairs are evenly spaced from the
/// start position.
pub open spec fn setup_x(opts: Options, index: int) -> int {
    opts.pipes_start_x + index * opts.pipes_gap_between
}

/// Every pair of the pool is one that the tunables allow.
pub open spec fn pool_wf(pipes: Seq<PipeParent>, opts: Options) -> bool {
    forall|i: int| 0 <= i < pipes.len() ==> pipe_wf(#[trigger] pipes[i]@, opts)
}

/// Whether every pair of the pool is one that the tunables allow.
pub fn pool_is_well_formed(pipes: &Vec<PipeParent>, opts: &Options) -> (r: bool)
    requires
        opts.valid(),
    ensures
        r == pool_wf(pipes@, *opts),
{
    let mut i: usize = 0;
    while i < pipes.len()
        invariant
            opts.valid(),
            i <= pipes.len(),
            forall|k: int| 0 <= k < i ==> pipe_wf(#[trigger] pipes[k]@, *opts),
        decreases pipes.len() - i,
    {
        if !pipes[i].is_well_formed(opts) {
            return false;
        }
        i = i + 1;
    }
    true
}

/// The pool at startup: the configured number of pairs, evenly spaced from
/// the start position, each with a height drawn from the configured range.
pub fn pipes_setup(opts: &Options) -> (pipes: Vec<PipeParent>)
    requires
        opts.valid(),
    ensures
        pipes.len() == opts.pipes_number,
        pool_wf(pipes@, *opts),
        forall|i: int|
            0 <= i < pipes.len() ==> (#[trigger] pipes[i])@ == fresh_pipe(
                *opts,
                setup_x(*opts, i),
                pipes[i].height_sprites as int,
            ),
{
    let mut pipes: Vec<PipeParent> = Vec::new();
    let mut i: u32 = 0;
    while i < opts.pipes_number
        invariant
            opts.valid(),
            i <= opts.pipes_number,
            pipes.len() == i,
            pool_wf(pipes@, *opts),
            forall|k: int|
                0 <= k < pipes.len() ==> (#[trigger] pipes[k])@ == fresh_pipe(
                    *opts,
                    setup_x(*opts, k),
                    pipes[k].height_sprites as int,
                ),
        decreases opts.pipes_number - i,
    {
        assert(0 <= i * opts.pipes_gap_between <= 0x4_0000_0000_0000) by (nonlinear_arith)
            requires
                0 <= i <= 1024,
                0 <= opts.pipes_gap_between <= 0x100_0000_0000,
        ;
        let x: i64 = opts.pipes_start_x + (i as i64) * opts.pipes_gap_between;
        let pipe = spawn_pipe(opts, x);
        pipes.push(pipe);
        i = i + 1;
    }
    pipes
}


/// The sprites of `blocks`, each moved sideways by `by`.
pub open spec fn shifted_blocks(blocks: Seq<PipeBlockView>, by: int) -> Seq<PipeBlockView> {
    Seq::new(blocks.len(), |k: int| PipeBlockView { x: blocks[k].x + by, ..blocks[k] })
}

/// Where the scroll of one tick of `dt` takes the pair.
pub open spec fn moved_x(pipe: PipeView, opts: Options, dt: int) -> int {
    pipe.x - gain(opts.pipes_speed as int, dt)
}

/// The scroll of one tick of `dt` takes the pair past the left edge of the
/// screen.
pub open spec fn leaves_screen(pipe: PipeView, opts: Options, dt: int) -> bool {
    moved_x(pipe, opts, dt) < -opts.screen_x_boundary
}

/// The pair after the scroll of one tick of `dt`. A pair that has left the
/// screen comes back one sprite past the right edge, unpassed, with a bottom
/// stack of `height` sprites; any other pair moves with all of its sprites.
pub open spec fn scrolled(pipe: PipeView, opts: Options, dt: int, height: int) -> PipeView {
    if leaves_screen(pipe, opts, dt) {
        fresh_pipe(opts, opts.recycle_x(), height)
    } else {
        PipeView {
            x: moved_x(pipe, opts, dt),
            blocks: shifted_blocks(pipe.blocks, -gain(opts.pipes_speed as int, dt)),
            ..pipe
        }
    }
}

/// The line that the player has to be beyond to have passed the pair: its
/// position, less half its width, less one sprite.
pub open spec fn pass_line(pipe: PipeView, opts: Options) -> int {
    pipe.x - opts.pipe_half_span() - opts.sprite_size
}

/// The pair gives its point to a player at `player_x`: it has not given it
/// yet, and the player is beyond its pass line.
pub open spec fn earns_point(pipe: PipeView, opts: Options, player_x: int) -> bool {
    !pipe.passed && player_x > pass_line(pipe, opts)
}

/// The pair gives its point in a tick of `dt`, after its scroll.
pub open spec fn gains_point(pipe: PipeView, opts: Options, dt: int, player_x: int) -> bool {
    earns_point(scrolled(pipe, opts, dt, pipe.height), opts, player_x)
}

/// A player at `player_x` is within the pair's width.
pub open spec fn touches(pipe: PipeView, opts: Options, player_x: int) -> bool {
    pipe.x - opts.pipe_half_span() < player_x < pipe.x + opts.pipe_half_span()
}

/// A player at (`player_x`, `player_y`) is inside one of the pair's stacks:
/// within the pair's width, and at or below the top of the bottom stack or
/// at or above the bottom of the top stack.
pub open spec fn hits(pipe: PipeView, opts: Options, player_x: int, player_y: int) -> bool {
    touches(pipe, opts, player_x) && (player_y <= opts.bottom_stack_top(pipe.height) || player_y
        >= opts.top_stack_bottom(pipe.height))
}

/// The pair after one tick of `dt` with the player at `player_x`: scrolled,
/// recycled with `height` where it left the screen, and marked as passed
/// where it gave its point.
pub open spec fn stepped(
    pipe: PipeView,
    opts: Options,
    dt: int,
    height: int,
    player_x: int,
) -> PipeView {
    let arrived = scrolled(pipe, opts, dt, height);
    PipeView { passed: arrived.passed || earns_point(arrived, opts, player_x), ..arrived }
}

/// How many of the first `upto` pairs give their point in a tick of `dt`.
pub open spec fn points_gained(
    pipes: Seq<PipeParent>,
    opts: Options,
    dt: int,
    player_x: int,
    upto: int,
) -> int
    decreases upto,
{
    if upto <= 0 {
        0
    } else {
        points_gained(pipes, opts, dt, player_x, upto - 1) + if gains_point(
            pipes[upto - 1]@,
            opts,
            dt,
            player_x,
        ) {
            1int
        } else {
            0int
        }
    }
}

/// One of the first `upto` pairs is hit by a player at (`player_x`,
/// `player_y`).
pub open spec fn any_hit(
    pipes: Seq<PipeParent>,
    opts: Options,
    player_x: int,
    player_y: int,
    upto: int,
) -> bool {
    exists|k: int| 0 <= k < upto && hits((#[trigger] pipes[k])@, opts, player_x, player_y)
}

/// What a tick of the pool asks of the world around the game.
#[derive(Debug)]
pub struct PipesOutcome {
    /// The sound of a beaten record is due: the score went past the record
    /// in this tick.
    pub highscore_sound: bool,
    /// For each pair, whether it was recycled: its sprites are new ones.
    pub recycled: Vec<bool>,
}

/// Moving a pair's sprites sideways gives the sprites of the moved pair.
pub proof fn lemma_shifted_pipe_blocks(opts: Options, x: int, height: int, by: int)
    ensures
        shifted_blocks(pipe_blocks(opts, x, height), by) == pipe_blocks(opts, x + by, height),
{
    assert(shifted_blocks(pipe_blocks(opts, x, height), by) =~= pipe_blocks(
        opts,
        x + by,
        height,
    ));
}

/// Every sprite of a pair stands between the pair's position and the far
/// edge of its columns.
pub proof fn lemma_block_x_bounds(opts: Options, x: int, height: int, k: int)
    requires
        opts.valid(),
        0 <= k < pipe_blocks(opts, x, height).len(),
    ensures
        x <= pipe_blocks(opts, x, height)[k].x <= x + 0x4_0000_0000_0000,
{
    let width = opts.pipe_width as int;
    let bottom = stack_blocks(opts, x, height, false);
    let index = if k < bottom.len() {
        k
    } else {
        k - bottom.len()
    };
    let column = index % width;
    vstd::arithmetic::div_mod::lemma_mod_pos_bound(index, width);
    assert(0 <= column * opts.sprite_size <= 0x4_0000_0000_0000) by (nonlinear_arith)
        requires
            0 <= column < 1024,
            0 < opts.sprite_size <= 0x100_0000_0000,
    ;
    assert(pipe_blocks(opts, x, height)[k].x == x + opts.column_offset(column));
}

impl PipeParent {
    /// Moves the pair and all of its sprites to the left by `by`.
    fn scroll(&mut self, opts: &Options, by: i64)
        requires
            opts.valid(),
            pipe_wf(old(self)@, *opts),
            0 <= by <= 0x4000_0000_0000_0000,
        ensures
            final(self)@ == (PipeView {
                x: old(self).x - by,
                blocks: shifted_blocks(old(self)@.blocks, -by),
                ..old(self)@
            }),
            final(self)@.blocks == pipe_blocks(
                *opts,
                old(self).x - by,
                old(self).height_sprites as int,
            ),
    {
        let ghost before = self@;
        let count: usize = self.blocks.len();
        let mut k: usize = 0;
        while k < count
            invariant
                opts.valid(),
                pipe_wf(before, *opts),
                0 <= by <= 0x4000_0000_0000_0000,
                count == self.blocks.len(),
                count == before.blocks.len(),
                k <= count,
                self.x == before.x,
                self.height_sprites == before.height,
                self.y_gap_sprites == before.gap,
                self.passed_score == before.passed,
                forall|j: int|
                    0 <= j < k ==> (#[trigger] self.blocks[j])@ == (PipeBlockView {
                        x: before.blocks[j].x - by,
                        ..before.blocks[j]
                    }),
                forall|j: int| k <= j < count ==> (#[trigger] self.blocks[j])@ == before.blocks[j],
            decreases count - k,
        {
            proof {
                lemma_block_x_bounds(*opts, before.x, before.height, k as int);
            }
            let moved: i64 = self.blocks[k].x - by;
            self.blocks[k].x = moved;
            k = k + 1;
        }
        self.x = self.x - by;
        proof {
            assert(self@.blocks =~= shifted_blocks(before.blocks, -by));
            lemma_shifted_pipe_blocks(*opts, before.x, before.height, -by);
        }
    }

    /// One tick of `dt` for the pair, with the player at `player_x`: the
    /// pair scrolls, is recycled with a newly drawn height where it has left
    /// the screen, and gives its point where the player has passed it. Tells
    /// whether it was recycled and whether it gave its point.
    pub fn step(&mut self, opts: &Options, dt: u32, player_x: i64) -> (r: (bool, bool))
        requires
            opts.valid(),
            pipe_wf(old(self)@, *opts),
        ensures
            final(self)@ == stepped(
                old(self)@,
                *opts,
                dt as int,
                final(self).height_sprites as int,
                player_x as int,
            ),
            pipe_wf(final(self)@, *opts),
            r.0 == leaves_screen(old(self)@, *opts, dt as int),
            r.1 == gains_point(old(self)@, *opts, dt as int, player_x as int),
            r.0 ==> final(self).x == opts.screen_x_boundary + opts.sprite_size,
            final(self).x >= -opts.screen_x_boundary,
    {
        let by: i128 = gain_of(opts.pipes_speed, dt);
        let recycled: bool = (self.x as i128) - by < -(opts.screen_x_boundary as i128);
        if recycled {
            self.reset(opts, opts.recycle_position());
        } else {
            self.scroll(opts, by as i64);
        }
        let line: i128 = self.x as i128 - opts.pipe_half_width() as i128 - opts.sprite_size as i128;
        let scored: bool = !self.passed_score && (player_x as i128) > line;
        if scored {
            self.passed_score = true;
        }
        (recycled, scored)
    }

    /// Whether a player at (`player_x`, `player_y`) is inside one of the
    /// pair's stacks.
    pub fn is_hit(&self, opts: &Options, player_x: i64, player_y: i64) -> (r: bool)
        requires
            opts.valid(),
            pipe_wf(self@, *opts),
        ensures
            r == hits(self@, *opts, player_x as int, player_y as int),
    {
        let half: i128 = opts.pipe_half_width() as i128;
        let within: bool = (self.x as i128) - half < player_x as i128 && (self.x as i128) + half
            > player_x as i128;
        within && (opts.bottom_stack_top_of(self.height_sprites) >= player_y
            || opts.top_stack_bottom_of(self.height_sprites) <= player_y)
    }
}

/// One tick of `dt` for the pool of pairs.
///
/// Nothing happens unless a run is on. Else every pair scrolls, recycles
/// and gives its point as [`PipeParent::step`] says; each point raises the
/// score by one, and a player inside a stack of any pair is dead.
pub fn pipes_system(
    game: &mut GameController,
    player: &mut Player,
    pipes: &mut Vec<PipeParent>,
    opts: &Options,
    dt: u32,
) -> (outcome: PipesOutcome)
    requires
        opts.valid(),
        pool_wf(old(pipes)@, *opts),
        old(game).score + old(pipes).len() <= u32::MAX,
    ensures
        final(pipes).len() == old(pipes).len(),
        outcome.recycled.len() == old(pipes).len(),
        pool_wf(final(pipes)@, *opts),
        !old(game).is_running() ==> {
            &&& *final(game) == *old(game)
            &&& *final(player) == *old(player)
            &&& final(pipes)@ == old(pipes)@
            &&& !outcome.highscore_sound
            &&& forall|i: int| 0 <= i < old(pipes).len() ==> !(#[trigger] outcome.recycled[i])
        },
        old(game).is_running() ==> {
            &&& forall|i: int|
                0 <= i < old(pipes).len() ==> (#[trigger] final(pipes)[i])@ == stepped(
                    old(pipes)[i]@,
                    *opts,
                    dt as int,
                    final(pipes)[i].height_sprites as int,
                    old(player).x as int,
                )
            &&& forall|i: int|
                0 <= i < old(pipes).len() ==> (#[trigger] outcome.recycled[i]) == leaves_screen(
                    old(pipes)[i]@,
                    *opts,
                    dt as int,
                )
            &&& final(game).score == old(game).score + points_gained(
                old(pipes)@,
                *opts,
                dt as int,
                old(player).x as int,
                old(pipes).len() as int,
            )
            &&& old(game).score <= final(game).score <= old(game).score + old(pipes).len()
            &&& *final(game) == (GameController { score: final(game).score, ..*old(game) })
            &&& final(player)@ == (PlayerView {
                dead: old(player).dead || any_hit(
                    final(pipes)@,
                    *opts,
                    old(player).x as int,
                    old(player).y as int,
                    old(pipes).len() as int,
                ),
                ..old(player)@
            })
            &&& outcome.highscore_sound == (old(game).score <= old(game).player_stats.high_score
                < final(game).score)
        },
{
    let count: usize = pipes.len();
    let running: bool = game.is_game_running();
    let mut outcome = PipesOutcome { highscore_sound: false, recycled: Vec::new() };
    let ghost pipes0 = pipes@;
    let ghost game0 = *game;
    let ghost player0 = *player;
    let player_x: i64 = player.x;
    let player_y: i64 = player.y;
    let mut i: usize = 0;
    while i < count
        invariant
            opts.valid(),
            count == pipes.len(),
            count == pipes0.len(),
            i <= count,
            running == game0.is_running(),
            game0.score + count <= u32::MAX,
            outcome.recycled.len() == i,
            player_x == player0.x,
            player_y == player0.y,
            pool_wf(pipes@, *opts),
            forall|k: int| i <= k < count ==> (#[trigger] pipes[k]) == pipes0[k],
            !running ==> {
                &&& pipes@ == pipes0
                &&& *game == game0
                &&& *player == player0
                &&& !outcome.highscore_sound
                &&& forall|k: int| 0 <= k < i ==> !(#[trigger] outcome.recycled[k])
            },
            running ==> {
                &&& forall|k: int|
                    0 <= k < i ==> (#[trigger] pipes[k])@ == stepped(
                        pipes0[k]@,
                        *opts,
                        dt as int,
                        pipes[k].height_sprites as int,
                        player_x as int,
                    )
                &&& forall|k: int|
                    0 <= k < i ==> (#[trigger] outcome.recycled[k]) == leaves_screen(
                        pipes0[k]@,
                        *opts,
                        dt as int,
                    )
                &&& game.score == game0.score + points_gained(
                    pipes0,
                    *opts,
                    dt as int,
                    player_x as int,
                    i as int,
                )
                &&& game0.score <= game.score <= game0.score + i
                &&& *game == (GameController { score: game.score, ..game0 })
                &&& player@ == (PlayerView {
                    dead: player0.dead || any_hit(
                        pipes@,
                        *opts,
                        player_x as int,
                        player_y as int,
                        i as int,
                    ),
                    ..player0@
                })
                &&& outcome.highscore_sound == (game0.score <= game0.player_stats.high_score
                    < game.score)
            },
        decreases count - i,
    {
        if running {
            let ghost earlier = pipes@;
            let (recycled, scored) = pipes[i].step(opts, dt, player_x);
            outcome.recycled.push(recycled);
            if scored {
                game.score = game.score + 1;
                if game.score - 1 == game.player_stats.high_score {
                    outcome.highscore_sound = true;
                }
            }
            let struck: bool = pipes[i].is_hit(opts, player_x, player_y);
            proof {
                assert(forall|k: int| 0 <= k < i ==> pipes[k] == earlier[k]);
                let px = player_x as int;
                let py = player_y as int;
                if any_hit(earlier, *opts, px, py, i as int) {
                    let w = choose|w: int| 0 <= w < i && hits((#[trigger] earlier[w])@, *opts, px, py);
                    assert(hits(pipes[w]@, *opts, px, py));
                }
                if struck {
                    assert(hits(pipes[i as int]@, *opts, px, py));
                }
                if any_hit(pipes@, *opts, px, py, i + 1) {
                    let w = choose|w: int|
                        0 <= w < i + 1 && hits((#[trigger] pipes[w])@, *opts, px, py);
                    if w < i {
                        assert(hits(earlier[w]@, *opts, px, py));
                    }
                }
                assert(any_hit(pipes@, *opts, px, py, i + 1) == (any_hit(
                    earlier,
                    *opts,
                    px,
                    py,
                    i as int,
                ) || struck));
            }
            if struck {
                player.dead = true;
            }
        } else {
            outcome.recycled.push(false);
        }
        i = i + 1;
    }
    outcome
}


/// A pair is made of one sprite for each column of each row of its two
/// stacks, and the rows of the stacks and of the opening fill the height from
/// floor to ceiling.
pub proof fn lemma_block_count(opts: Options, x: int, height: int)
    requires
        opts.valid(),
        opts.pipe_height_min <= height <= opts.pipe_height_max,
    ensures
        pipe_blocks(opts, x, height).len() == (height + opts.top_units(height)) * opts.pipe_width,
        height + opts.pipe_y_gap + opts.top_units(height) == opts.total_units(),
{
    let width = opts.pipe_width as int;
    let top = opts.top_units(height);
    assert(height * width >= 0 && top * width >= 0 && (height + top) * width == height * width
        + top * width) by (nonlinear_arith)
        requires
            height >= 0,
            top >= 0,
            width >= 1,
    ;
}

/// A pair that the scroll of a tick takes past the left edge of the screen
/// stands, after that tick, one sprite past the right edge, and has its point
/// to give again, whatever height was drawn for it. The player stands no
/// further right than the pass line of a pair that has just come back.
pub proof fn lemma_recycle_invariant(
    pipe: PipeView,
    opts: Options,
    dt: int,
    height: int,
    player_x: int,
)
    requires
        opts.valid(),
        leaves_screen(pipe, opts, dt),
        player_x <= opts.screen_x_boundary - opts.pipe_half_span(),
    ensures
        stepped(pipe, opts, dt, height, player_x).x == opts.screen_x_boundary + opts.sprite_size,
        !stepped(pipe, opts, dt, height, player_x).passed,
        stepped(pipe, opts, dt, height, player_x).height == height,
{
}

/// After a tick no pair is left of the left edge of the screen, and a pair
/// that did not leave the screen keeps its height.
pub proof fn lemma_stays_on_screen(
    pipe: PipeView,
    opts: Options,
    dt: int,
    height: int,
    player_x: int,
)
    requires
        opts.valid(),
    ensures
        stepped(pipe, opts, dt, height, player_x).x >= -opts.screen_x_boundary,
        !leaves_screen(pipe, opts, dt) ==> stepped(pipe, opts, dt, height, player_x).height
            == pipe.height,
{
}

/// A pair gives its point once: after the tick in which it gave it, it
/// gives none in a later tick, until it is recycled.
pub proof fn lemma_point_given_once(
    pipe: PipeView,
    opts: Options,
    dt: int,
    height: int,
    player_x: int,
    next_dt: int,
)
    requires
        gains_point(pipe, opts, dt, player_x) || pipe.passed && !leaves_screen(pipe, opts, dt),
    ensures
        stepped(pipe, opts, dt, height, player_x).passed,
        !leaves_screen(stepped(pipe, opts, dt, height, player_x), opts, next_dt) ==> !gains_point(
            stepped(pipe, opts, dt, height, player_x),
            opts,
            next_dt,
            player_x,
        ),
{
}

/// In one tick the pool gives at least no point and at most one point for
/// each pair, so the score of a run never goes down, and a pair that gives
/// its point raises it by exactly one.
pub proof fn lemma_points_bounds(
    pipes: Seq<PipeParent>,
    opts: Options,
    dt: int,
    player_x: int,
    upto: int,
)
    requires
        0 <= upto,
    ensures
        0 <= points_gained(pipes, opts, dt, player_x, upto) <= upto,
        points_gained(pipes, opts, dt, player_x, upto + 1) == points_gained(
            pipes,
            opts,
            dt,
            player_x,
            upto,
        ) + if gains_point(pipes[upto]@, opts, dt, player_x) {
            1int
        } else {
            0int
        },
    decreases upto,
{
    if upto > 0 {
        lemma_points_bounds(pipes, opts, dt, player_x, upto - 1);
    }
}

/// The scroll keeps a pair that the tunables allow as one: its sprites
/// stay where its position and height put them.
pub proof fn lemma_step_keeps_wf(
    pipe: PipeView,
    opts: Options,
    dt: int,
    height: int,
    player_x: int,
)
    requires
        opts.valid(),
        pipe_wf(pipe, opts),
        0 <= dt <= u32::MAX,
        opts.pipe_height_min <= height <= opts.pipe_height_max,
    ensures
        pipe_wf(stepped(pipe, opts, dt, height, player_x), opts),
{
    let by = gain(opts.pipes_speed as int, dt);
    assert(0 <= by) by (nonlinear_arith)
        requires
            by == opts.pipes_speed as int * dt,
            0 <= opts.pipes_speed,
            0 <= dt,
    ;
    lemma_shifted_pipe_blocks(opts, pipe.x, pipe.height, -by);
}


/// One tick in the life of a pair: the time step, and the height that is
/// drawn if the tick recycles the pair.
pub struct PairTick {
    pub dt: int,
    pub height: int,
}

/// The pair after a run of ticks, the player standing at `player_x`.
pub open spec fn after_ticks(
    pipe: PipeView,
    opts: Options,
    player_x: int,
    ticks: Seq<PairTick>,
) -> PipeView
    decreases ticks.len(),
{
    if ticks.len() == 0 {
        pipe
    } else {
        stepped(
            after_ticks(pipe, opts, player_x, ticks.drop_last()),
            opts,
            ticks.last().dt,
            ticks.last().height,
            player_x,
        )
    }
}

/// After any number of ticks a pair is still one that the tunables allow:
/// its bottom stack has a height in the configured range, its top stack a
/// height of zero or more, and its sprites are where its position and height
/// put them; and after the first tick it is never left of the left edge of
/// the screen.
pub proof fn lemma_pair_invariants(
    pipe: PipeView,
    opts: Options,
    player_x: int,
    ticks: Seq<PairTick>,
)
    requires
        opts.valid(),
        pipe_wf(pipe, opts),
        forall|i: int|
            0 <= i < ticks.len() ==> 0 <= (#[trigger] ticks[i]).dt <= u32::MAX
                && opts.pipe_height_min <= ticks[i].height <= opts.pipe_height_max,
    ensures
        pipe_wf(after_ticks(pipe, opts, player_x, ticks), opts),
        opts.top_units(after_ticks(pipe, opts, player_x, ticks).height) >= 0,
        ticks.len() > 0 ==> after_ticks(pipe, opts, player_x, ticks).x >= -opts.screen_x_boundary,
    decreases ticks.len(),
{
    if ticks.len() > 0 {
        let earlier = after_ticks(pipe, opts, player_x, ticks.drop_last());
        lemma_pair_invariants(pipe, opts, player_x, ticks.drop_last());
        lemma_step_keeps_wf(earlier, opts, ticks.last().dt, ticks.last().height, player_x);
        lemma_stays_on_screen(earlier, opts, ticks.last().dt, ticks.last().height, player_x);
    }
    lemma_top_stack_not_negative(
        opts,
        after_ticks(pipe, opts, player_x, ticks).height,
    );
}


} // verus!
