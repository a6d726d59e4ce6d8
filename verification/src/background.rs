//! The scenery behind the game: clouds that drift to the right and come
//! back on the left, and hills that scroll slowly to the left and wrap round.

use vstd::prelude::*;
use crate::game_controller::{GameController, GameState};
use crate::options::{within_length, Options, POOL_LIMIT};
use crate::random::{choose_one, draw_in_range};
use crate::units::{gain, gain_of, LENGTH_LIMIT, POSITION_LIMIT};

verus! {

/// One sprite of a cloud.
#[derive(Clone, Copy, Debug, PartialEq, Eq, Structural)]
pub struct CloudBlock {
    /// Horizontal position of the sprite.
    pub x: i64,
    /// Vertical position of the sprite.
    pub y: i64,
    /// The sprite is the first of its cloud, which shows the cloud's start.
    pub leading: bool,
}

/// A sprite of a cloud as a mathematical value.
pub struct CloudBlockView {
    pub x: int,
    pub y: int,
    pub leading: bool,
}

impl View for CloudBlock {
    type V = CloudBlockView;

    open spec fn view(&self) -> CloudBlockView {
        CloudBlockView { x: self.x as int, y: self.y as int, leading: self.leading }
    }
}

/// One cloud: a row of sprites.
#[derive(Debug)]
pub struct CloudParent {
    /// Horizontal position of the cloud's first sprite.
    pub x: i64,
    /// Height of the cloud.
    pub y: i64,
    /// Number of sprites.
    pub width_sprites: u32,
    /// The sprites, from left to right.
    pub blocks: Vec<CloudBlock>,
}

/// A cloud as a mathematical value.
pub struct CloudView {
    pub x: int,
    pub y: int,
    pub width: int,
    pub blocks: Seq<CloudBlockView>,
}

impl View for CloudParent {
    type V = CloudView;

    open spec fn view(&self) -> CloudView {
        CloudView {
            x: self.x as int,
            y: self.y as int,
            width: self.width_sprites as int,
            blocks: Seq::new(self.blocks@.len(), |k: int| self.blocks@[k]@),
        }
    }
}

/// The first `count` sprites of a cloud at (`x`, `y`): one sprite side
/// apart, the first one leading.
pub open spec fn cloud_prefix(opts: Options, x: int, y: int, count: int) -> Seq<CloudBlockView> {
    Seq::new(count as nat, |k: int| CloudBlockView { x: x + k * opts.sprite_size, y, leading: k == 0 })
}

/// The cloud of `width` sprites at (`x`, `y`), freshly built.
pub open spec fn fresh_cloud(opts: Options, x: int, y: int, width: int) -> CloudView {
    CloudView { x, y, width, blocks: cloud_prefix(opts, x, y, width) }
}

/// The cloud is one that the tunables allow: its sprites are where its
/// position and width put them.
pub open spec fn cloud_wf(cloud: CloudView, opts: Options) -> bool {
    &&& -(POSITION_LIMIT as int) <= cloud.x <= POSITION_LIMIT as int
    &&& -(LENGTH_LIMIT as int) <= cloud.y <= LENGTH_LIMIT as int
    &&& 0 <= cloud.width <= POOL_LIMIT
    &&& cloud.blocks == cloud_prefix(opts, cloud.x, cloud.y, cloud.width)
}

/// Every cloud of the list is one that the tunables allow.
pub open spec fn sky_wf(clouds: Seq<CloudParent>, opts: Options) -> bool {
    forall|i: int| 0 <= i < clouds.len() ==> cloud_wf(#[trigger] clouds[i]@, opts)
}

/// Where the drift of one tick of `dt` takes the cloud.
pub open spec fn drifted_x(cloud: CloudView, opts: Options, dt: int) -> int {
    cloud.x + gain(opts.clouds_speed as int, dt)
}

/// The drift of one tick of `dt` takes the whole cloud past the right edge
/// of the screen.
pub open spec fn leaves_sky(cloud: CloudView, opts: Options, dt: int) -> bool {
    drifted_x(cloud, opts, dt) > opts.screen_x_boundary + cloud.width * opts.sprite_size
}

/// Where a cloud of `width` sprites comes back: with its last sprite just
/// left of the left edge.
pub open spec fn reentry_x(opts: Options, width: int) -> int {
    -opts.screen_x_boundary - opts.sprite_size * width
}

/// The cloud's sprites, each moved sideways by `by`.
pub open spec fn shifted_cloud(blocks: Seq<CloudBlockView>, by: int) -> Seq<CloudBlockView> {
    Seq::new(blocks.len(), |k: int| CloudBlockView { x: blocks[k].x + by, ..blocks[k] })
}

/// The cloud after one tick of `dt`: a cloud that has left the screen comes
/// back on the left at height `y`, built anew; any other moves with all of
/// its sprites.
pub open spec fn drifted(cloud: CloudView, opts: Options, dt: int, y: int) -> CloudView {
    if leaves_sky(cloud, opts, dt) {
        fresh_cloud(opts, reentry_x(opts, cloud.width), y, cloud.width)
    } else {
        CloudView {
            x: drifted_x(cloud, opts, dt),
            blocks: shifted_cloud(cloud.blocks, gain(opts.clouds_speed as int, dt)),
            ..cloud
        }
    }
}

/// Where cloud `index` stands at setup.
pub open spec fn cloud_setup_x(opts: Options, index: int) -> int {
    opts.clouds_start_x + index * opts.clouds_gap_between
}

/// Sprite `k` of a cloud is at most the sprite limit away from the cloud.
proof fn lemma_cloud_offset(opts: Options, k: int)
    requires
        opts.valid(),
        0 <= k <= POOL_LIMIT,
    ensures
        0 <= k * opts.sprite_size <= 0x4_0000_0000_0000,
{
    assert(0 <= k * opts.sprite_size <= 0x4_0000_0000_0000) by (nonlinear_arith)
        requires
            0 <= k <= 1024,
            0 < opts.sprite_size <= 0x100_0000_0000,
    ;
}

impl CloudParent {
    /// Appends the sprites of the cloud for its position and width.
    pub fn spawn_blocks(&mut self, opts: &Options)
        requires
            opts.valid(),
            -POSITION_LIMIT <= old(self).x <= POSITION_LIMIT,
            old(self).width_sprites <= POOL_LIMIT,
        ensures
            final(self)@ == (CloudView {
                blocks: old(self)@.blocks + cloud_prefix(
                    *opts,
                    old(self).x as int,
                    old(self).y as int,
                    old(self).width_sprites as int,
                ),
                ..old(self)@
            }),
    {
        let ghost before = self@.blocks;
        let mut i: u32 = 0;
        while i < self.width_sprites
            invariant
                opts.valid(),
                -POSITION_LIMIT <= self.x <= POSITION_LIMIT,
                self.width_sprites <= POOL_LIMIT,
                i <= self.width_sprites,
                self.x == old(self).x,
                self.y == old(self).y,
                self.width_sprites == old(self).width_sprites,
                self@.blocks == before + cloud_prefix(*opts, self.x as int, self.y as int, i as int),
            decreases self.width_sprites - i,
        {
            proof {
                lemma_cloud_offset(*opts, i as int);
            }
            let block = CloudBlock {
                x: self.x + (i as i64) * opts.sprite_size,
                y: self.y,
                leading: i == 0,
            };
            let ghost earlier = self@.blocks;
            self.blocks.push(block);
            proof {
                assert(self@.blocks =~= earlier.push(block@));
                assert(cloud_prefix(*opts, self.x as int, self.y as int, i + 1) =~= cloud_prefix(
                    *opts,
                    self.x as int,
                    self.y as int,
                    i as int,
                ).push(block@));
                assert(self@.blocks =~= before + cloud_prefix(
                    *opts,
                    self.x as int,
                    self.y as int,
                    i + 1,
                ));
            }
            i = i + 1;
        }
    }

    /// A cloud of `width` sprites at (`x`, `y`).
    pub fn with_height(opts: &Options, x: i64, y: i64, width: u32) -> (cloud: CloudParent)
        requires
            opts.valid(),
            -POSITION_LIMIT <= x <= POSITION_LIMIT,
            within_length(y),
            width <= POOL_LIMIT,
        ensures
            cloud@ == fresh_cloud(*opts, x as int, y as int, width as int),
            cloud_wf(cloud@, *opts),
    {
        let mut cloud = CloudParent { x, y, width_sprites: width, blocks: Vec::new() };
        cloud.spawn_blocks(opts);
        assert(cloud@.blocks =~= cloud_prefix(*opts, x as int, y as int, width as int));
        cloud
    }

    /// Whether the cloud is one that the tunables allow.
    pub fn is_well_formed(&self, opts: &Options) -> (r: bool)
        requires
            opts.valid(),
        ensures
            r == cloud_wf(self@, *opts),
    {
        if !(-POSITION_LIMIT <= self.x && self.x <= POSITION_LIMIT && -LENGTH_LIMIT
            <= self.y && self.y <= LENGTH_LIMIT && self.width_sprites
            <= POOL_LIMIT) {
            return false;
        }
        let model = CloudParent::with_height(opts, self.x, self.y, self.width_sprites);
        if model.blocks.len() != self.blocks.len() {
            assert(model@.blocks.len() != self@.blocks.len());
            return false;
        }
        let count: usize = self.blocks.len();
        let mut k: usize = 0;
        while k < count
            invariant
                count == self.blocks.len(),
                count == model.blocks.len(),
                k <= count,
                -POSITION_LIMIT <= self.x <= POSITION_LIMIT,
                within_length(self.y),
                self.width_sprites <= POOL_LIMIT,
                model@.blocks == cloud_prefix(
                    *opts,
                    self.x as int,
                    self.y as int,
                    self.width_sprites as int,
                ),
                forall|j: int| 0 <= j < k ==> (#[trigger] self.blocks[j])@ == model.blocks[j]@,
            decreases count - k,
        {
            let mine = self.blocks[k];
            let other = model.blocks[k];
            if !(mine.x == other.x && mine.y == other.y && mine.leading == other.leading) {
                assert(self@.blocks[k as int] != model@.blocks[k as int]);
                return false;
            }
            k = k + 1;
        }
        assert(self@.blocks =~= model@.blocks);
        true
    }

    /// Brings the cloud back on the left of the screen at height `y`, with
    /// every sprite built anew.
    pub fn rebuild(&mut self, opts: &Options, y: i64)
        requires
            opts.valid(),
            old(self).width_sprites <= POOL_LIMIT,
            within_length(y),
        ensures
            final(self)@ == fresh_cloud(
                *opts,
                reentry_x(*opts, old(self).width_sprites as int),
                y as int,
                old(self).width_sprites as int,
            ),
            cloud_wf(final(self)@, *opts),
    {
        proof {
            lemma_cloud_offset(*opts, self.width_sprites as int);
            assert(opts.sprite_size * self.width_sprites == self.width_sprites * opts.sprite_size)
                by (nonlinear_arith);
        }
        self.blocks.clear();
        self.x = -opts.screen_x_boundary - opts.sprite_size * (self.width_sprites as i64);
        self.y = y;
        self.spawn_blocks(opts);
        assert(self@.blocks =~= cloud_prefix(
            *opts,
            self.x as int,
            y as int,
            self.width_sprites as int,
        ));
    }

    /// Recycles the cloud: brings it back on the left of the screen at a
    /// height drawn from the configured range.
    pub fn reset(&mut self, opts: &Options)
        requires
            opts.valid(),
            old(self).width_sprites <= POOL_LIMIT,
        ensures
            opts.clouds_y_min <= final(self).y <= opts.clouds_y_max,
            final(self)@ == fresh_cloud(
                *opts,
                reentry_x(*opts, old(self).width_sprites as int),
                final(self).y as int,
                old(self).width_sprites as int,
            ),
            cloud_wf(final(self)@, *opts),
    {
        let y: i64 = draw_in_range(opts.clouds_y_min, opts.clouds_y_max);
        self.rebuild(opts, y);
    }

    /// Moves the cloud and all of its sprites to the right by `by`.
    fn shift(&mut self, opts: &Options, by: i64)
        requires
            opts.valid(),
            cloud_wf(old(self)@, *opts),
            0 <= by <= 0x4000_0000_0000_0000,
        ensures
            final(self)@ == (CloudView {
                x: old(self).x + by,
                blocks: shifted_cloud(old(self)@.blocks, by as int),
                ..old(self)@
            }),
            final(self)@.blocks == cloud_prefix(
                *opts,
                old(self).x + by,
                old(self).y as int,
                old(self).width_sprites as int,
            ),
    {
        let ghost before = self@;
        let count: usize = self.blocks.len();
        let mut k: usize = 0;
        while k < count
            invariant
                opts.valid(),
                cloud_wf(before, *opts),
                0 <= by <= 0x4000_0000_0000_0000,
                count == self.blocks.len(),
                count == before.blocks.len(),
                k <= count,
                self.x == before.x,
                self.y == before.y,
                self.width_sprites == before.width,
                forall|j: int|
                    0 <= j < k ==> (#[trigger] self.blocks[j])@ == (CloudBlockView {
                        x: before.blocks[j].x + by,
                        ..before.blocks[j]
                    }),
                forall|j: int| k <= j < count ==> (#[trigger] self.blocks[j])@ == before.blocks[j],
            decreases count - k,
        {
            proof {
                lemma_cloud_offset(*opts, k as int);
            }
            let moved: i64 = self.blocks[k].x + by;
            self.blocks[k].x = moved;
            k = k + 1;
        }
        self.x = self.x + by;
        proof {
            assert(self@.blocks =~= shifted_cloud(before.blocks, by as int));
            assert(shifted_cloud(before.blocks, by as int) =~= cloud_prefix(
                *opts,
                before.x + by,
                before.y,
                before.width,
            ));
        }
    }

    /// One tick of `dt` for the cloud: it drifts to the right, and is
    /// recycled where it has left the screen. Tells whether it was recycled.
    pub fn drift(&mut self, opts: &Options, dt: u32) -> (recycled: bool)
        requires
            opts.valid(),
            cloud_wf(old(self)@, *opts),
        ensures
            recycled == leaves_sky(old(self)@, *opts, dt as int),
            final(self)@ == drifted(old(self)@, *opts, dt as int, final(self).y as int),
            recycled ==> opts.clouds_y_min <= final(self).y <= opts.clouds_y_max,
            cloud_wf(final(self)@, *opts),
    {
        let by: i128 = gain_of(opts.clouds_speed, dt);
        proof {
            lemma_cloud_offset(*opts, self.width_sprites as int);
        }
        let edge: i128 = opts.screen_x_boundary as i128 + (self.width_sprites as i128)
            * (opts.sprite_size as i128);
        let recycled: bool = (self.x as i128) + by > edge;
        if recycled {
            self.reset(opts);
        } else {
            self.shift(opts, by as i64);
        }
        recycled
    }
}

/// A new cloud at `x`, of the configured width, at a height drawn from the
/// configured range.
pub fn spawn_cloud(opts: &Options, x: i64) -> (cloud: CloudParent)
    requires
        opts.valid(),
        -POSITION_LIMIT <= x <= POSITION_LIMIT,
    ensures
        opts.clouds_y_min <= cloud.y <= opts.clouds_y_max,
        cloud@ == fresh_cloud(*opts, x as int, cloud.y as int, opts.cloud_width as int),
        cloud_wf(cloud@, *opts),
{
    let y: i64 = draw_in_range(opts.clouds_y_min, opts.clouds_y_max);
    CloudParent::with_height(opts, x, y, opts.cloud_width)
}

/// Whether every cloud of the list is one that the tunables allow.
pub fn sky_is_well_formed(clouds: &Vec<CloudParent>, opts: &Options) -> (r: bool)
    requires
        opts.valid(),
    ensures
        r == sky_wf(clouds@, *opts),
{
    let mut i: usize = 0;
    while i < clouds.len()
        invariant
            opts.valid(),
            i <= clouds.len(),
            forall|k: int| 0 <= k < i ==> cloud_wf(#[trigger] clouds[k]@, *opts),
        decreases clouds.len() - i,
    {
        if !clouds[i].is_well_formed(opts) {
            return false;
        }
        i = i + 1;
    }
    true
}

/// The clouds at startup: the configured number, evenly spaced from the
/// start position, each at a height drawn from the configured range.
pub fn clouds_setup(opts: &Options) -> (clouds: Vec<CloudParent>)
    requires
        opts.valid(),
    ensures
        clouds.len() == opts.clouds_number,
        sky_wf(clouds@, *opts),
        forall|i: int|
            0 <= i < clouds.len() ==> {
                &&& opts.clouds_y_min <= (#[trigger] clouds[i]).y <= opts.clouds_y_max
                &&& clouds[i]@ == fresh_cloud(
                    *opts,
                    cloud_setup_x(*opts, i),
                    clouds[i].y as int,
                    opts.cloud_width as int,
                )
            },
{
    let mut clouds: Vec<CloudParent> = Vec::new();
    let mut i: u32 = 0;
    while i < opts.clouds_number
        invariant
            opts.valid(),
            i <= opts.clouds_number,
            clouds.len() == i,
            sky_wf(clouds@, *opts),
            forall|k: int|
                0 <= k < clouds.len() ==> {
                    &&& opts.clouds_y_min <= (#[trigger] clouds[k]).y <= opts.clouds_y_max
                    &&& clouds[k]@ == fresh_cloud(
                        *opts,
                        cloud_setup_x(*opts, k),
                        clouds[k].y as int,
                        opts.cloud_width as int,
                    )
                },
        decreases opts.clouds_number - i,
    {
        assert(0 <= i * opts.clouds_gap_between <= 0x4_0000_0000_0000) by (nonlinear_arith)
            requires
                0 <= i <= 1024,
                0 <= opts.clouds_gap_between <= 0x100_0000_0000,
        ;
        let x: i64 = opts.clouds_start_x + (i as i64) * opts.clouds_gap_between;
        let cloud = spawn_cloud(opts, x);
        clouds.push(cloud);
        i = i + 1;
    }
    clouds
}

/// One tick of `dt` for the clouds: unless the game is paused, every cloud
/// drifts as [`CloudParent::drift`] says. Tells for each cloud whether it was
/// recycled.
pub fn clouds_system(
    game: &GameController,
    clouds: &mut Vec<CloudParent>,
    opts: &Options,
    dt: u32,
) -> (recycled: Vec<bool>)
    requires
        opts.valid(),
        sky_wf(old(clouds)@, *opts),
    ensures
        final(clouds).len() == old(clouds).len(),
        recycled.len() == old(clouds).len(),
        sky_wf(final(clouds)@, *opts),
        game.game_state == GameState::Paused ==> {
            &&& final(clouds)@ == old(clouds)@
            &&& forall|i: int| 0 <= i < recycled.len() ==> !(#[trigger] recycled[i])
        },
        game.game_state != GameState::Paused ==> {
            &&& forall|i: int|
                0 <= i < old(clouds).len() ==> (#[trigger] recycled[i]) == leaves_sky(
                    old(clouds)[i]@,
                    *opts,
                    dt as int,
                )
            &&& forall|i: int|
                0 <= i < old(clouds).len() ==> {
                    &&& (#[trigger] final(clouds)[i])@ == drifted(
                        old(clouds)[i]@,
                        *opts,
                        dt as int,
                        final(clouds)[i].y as int,
                    )
                    &&& leaves_sky(old(clouds)[i]@, *opts, dt as int) ==> opts.clouds_y_min
                        <= final(clouds)[i].y <= opts.clouds_y_max
                }
        },
{
    let count: usize = clouds.len();
    let paused: bool = game.is_game_paused();
    let mut recycled: Vec<bool> = Vec::new();
    let ghost clouds0 = clouds@;
    let mut i: usize = 0;
    while i < count
        invariant
            opts.valid(),
            count == clouds.len(),
            count == clouds0.len(),
            i <= count,
            paused == (game.game_state == GameState::Paused),
            recycled.len() == i,
            sky_wf(clouds@, *opts),
            forall|k: int| i <= k < count ==> (#[trigger] clouds[k]) == clouds0[k],
            paused ==> clouds@ == clouds0,
            paused ==> forall|k: int| 0 <= k < i ==> !(#[trigger] recycled[k]),
            !paused ==> forall|k: int|
                0 <= k < i ==> (#[trigger] recycled[k]) == leaves_sky(
                    clouds0[k]@,
                    *opts,
                    dt as int,
                ),
            !paused ==> forall|k: int|
                0 <= k < i ==> {
                    &&& (#[trigger] clouds[k])@ == drifted(
                        clouds0[k]@,
                        *opts,
                        dt as int,
                        clouds[k].y as int,
                    )
                    &&& leaves_sky(clouds0[k]@, *opts, dt as int) ==> opts.clouds_y_min
                        <= clouds[k].y <= opts.clouds_y_max
                },
        decreases count - i,
    {
        if paused {
            recycled.push(false);
        } else {
            let back: bool = clouds[i].drift(opts, dt);
            recycled.push(back);
        }
        i = i + 1;
    }
    recycled
}

/// One hill of the skyline.
#[derive(Clone, Copy, Debug, PartialEq, Eq, Structural)]
pub struct Hill {
    /// Horizontal position.
    pub x: i64,
    /// Vertical position.
    pub y: i64,
    /// Which of the hill pictures it shows.
    pub texture: u32,
}

/// How many hills span the screen: its width over the width of a hill,
/// rounded up.
pub open spec fn hills_count(opts: Options) -> int {
    (2 * opts.screen_x_boundary + opts.hill_width - 1) / (opts.hill_width as int)
}

/// Where hill `index` stands at setup: the hills follow each other from the
/// left edge of the screen.
pub open spec fn hill_setup_x(opts: Options, index: int) -> int {
    -opts.screen_x_boundary + index * opts.hill_width
}

/// The height at which the hills stand: on the lower edge of the screen.
pub open spec fn hill_y(opts: Options) -> int {
    -opts.screen_y_boundary + opts.hill_height / 2
}

/// How far the hills scroll in a tick of `dt`: a twentieth of what the
/// obstacle pairs do.
pub open spec fn hill_step(opts: Options, dt: int) -> int {
    gain(opts.pipes_speed as int, dt) / 20
}

/// Where a hill at `x` stands after a tick of `dt`: it scrolls to the left,
/// and from beyond the left edge of the screen it jumps to the right edge.
pub open spec fn hill_after(x: int, opts: Options, dt: int) -> int {
    if x - hill_step(opts, dt) < -opts.screen_x_boundary {
        opts.screen_x_boundary as int
    } else {
        x - hill_step(opts, dt)
    }
}

/// The skyline at startup: as many hills as span the screen, side by side
/// from the left edge, each showing a picture picked from `textures`.
pub fn hills_setup(opts: &Options, textures: &Vec<u32>) -> (hills: Vec<Hill>)
    requires
        opts.valid(),
        textures.len() > 0,
    ensures
        hills.len() == hills_count(*opts),
        forall|i: int|
            0 <= i < hills.len() ==> {
                &&& (#[trigger] hills[i]).x == hill_setup_x(*opts, i)
                &&& hills[i].y == hill_y(*opts)
                &&& textures@.contains(hills[i].texture)
            },
{
    let span: i64 = 2 * opts.screen_x_boundary;
    let count: i64 = (span + opts.hill_width - 1) / opts.hill_width;
    let y: i64 = -opts.screen_y_boundary + opts.hill_height / 2;
    let mut hills: Vec<Hill> = Vec::new();
    let mut i: i64 = 0;
    proof {
        vstd::arithmetic::div_mod::lemma_fundamental_div_mod(
            span + opts.hill_width - 1,
            opts.hill_width as int,
        );
        vstd::arithmetic::div_mod::lemma_mod_pos_bound(
            span + opts.hill_width - 1,
            opts.hill_width as int,
        );
        vstd::arithmetic::div_mod::lemma_div_pos_is_pos(
            span + opts.hill_width - 1,
            opts.hill_width as int,
        );
        vstd::arithmetic::mul::lemma_mul_is_commutative(opts.hill_width as int, count as int);
    }
    while i < count
        invariant
            opts.valid(),
            textures.len() > 0,
            span == 2 * opts.screen_x_boundary,
            count == hills_count(*opts),
            0 <= count,
            count * opts.hill_width <= span + opts.hill_width - 1,
            0 <= i <= count,
            y == hill_y(*opts),
            hills.len() == i,
            forall|k: int|
                0 <= k < hills.len() ==> {
                    &&& (#[trigger] hills[k]).x == hill_setup_x(*opts, k)
                    &&& hills[k].y == hill_y(*opts)
                    &&& textures@.contains(hills[k].texture)
                },
        decreases count - i,
    {
        assert(0 <= i * opts.hill_width <= count * opts.hill_width) by (nonlinear_arith)
            requires
                0 <= i < count,
                0 < opts.hill_width,
        ;
        let texture: u32 = match choose_one(textures) {
            Some(picked) => picked,
            None => textures[0],
        };
        hills.push(Hill { x: -opts.screen_x_boundary + i * opts.hill_width, y, texture });
        i = i + 1;
    }
    hills
}

/// One tick of `dt` for the skyline: every hill scrolls and wraps round as
/// [`hill_after`] says, whatever the state of the game.
pub fn hills_system(hills: &mut Vec<Hill>, opts: &Options, dt: u32)
    requires
        opts.valid(),
    ensures
        final(hills).len() == old(hills).len(),
        forall|i: int|
            0 <= i < old(hills).len() ==> {
                &&& (#[trigger] final(hills)[i]).x == hill_after(
                    old(hills)[i].x as int,
                    *opts,
                    dt as int,
                )
                &&& final(hills)[i].y == old(hills)[i].y
                &&& final(hills)[i].texture == old(hills)[i].texture
            },
{
    let count: usize = hills.len();
    let step: i128 = gain_of(opts.pipes_speed, dt) / 20;
    let ghost hills0 = hills@;
    let mut i: usize = 0;
    while i < count
        invariant
            opts.valid(),
            count == hills.len(),
            count == hills0.len(),
            i <= count,
            step == hill_step(*opts, dt as int),
            0 <= step <= 0x4000_0000_0000_0000,
            forall|k: int| i <= k < count ==> (#[trigger] hills[k]) == hills0[k],
            forall|k: int|
                0 <= k < i ==> {
                    &&& (#[trigger] hills[k]).x == hill_after(hills0[k].x as int, *opts, dt as int)
                    &&& hills[k].y == hills0[k].y
                    &&& hills[k].texture == hills0[k].texture
                },
        decreases count - i,
    {
        let moved: i128 = hills[i].x as i128 - step;
        if moved < -(opts.screen_x_boundary as i128) {
            hills[i].x = opts.screen_x_boundary;
        } else {
            hills[i].x = moved as i64;
        }
        i = i + 1;
    }
}

} // verus!
