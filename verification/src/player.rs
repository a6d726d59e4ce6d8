//! The player: vertical motion, tilt and animation, and what one tick does
//! to the player and to the state of the game.

use vstd::prelude::*;
use crate::game_controller::{
    game_over, restarted, reset_x, with_highscore, GameController, GameState, PlayerStatistics,
    Storage,
};
use crate::options::Options;
use crate::pipes::{fresh_pipe, pool_wf, PipeParent};
use crate::units::{clamped, gain, gain_of, saturate, saturated};

verus! {

/// What the player's sprite is doing.
#[derive(PartialEq, Eq, Clone, Copy, Debug, Structural)]
pub enum PlayerAnimation {
    /// Tilting down after a jump.
    Fall,
    /// Tilted up by a jump that is still held.
    Jump,
    /// Hovering before the run starts.
    Idle,
    /// Dropping out of the screen after a death.
    Death,
}

/// The player.
#[derive(PartialEq, Eq, Clone, Copy, Debug, Structural)]
pub struct Player {
    /// Horizontal position; it never changes.
    pub x: i64,
    /// Height.
    pub y: i64,
    /// Tilt; zero is level, positive is nose up.
    pub rotation: i64,
    /// Vertical speed; positive is up.
    pub delta_y: i64,
    /// The player has died in this run.
    pub dead: bool,
    /// The sound of the hit has been played for this death.
    pub hit_sound: bool,
    /// The sound of the lost run has been played for this death.
    pub lose_sound: bool,
    /// What the sprite is doing.
    pub animation: PlayerAnimation,
}

/// The player as a mathematical value.
pub struct PlayerView {
    pub x: int,
    pub y: int,
    pub rotation: int,
    pub delta_y: int,
    pub dead: bool,
    pub hit_sound: bool,
    pub lose_sound: bool,
    pub animation: PlayerAnimation,
}

impl View for Player {
    type V = PlayerView;

    open spec fn view(&self) -> PlayerView {
        PlayerView {
            x: self.x as int,
            y: self.y as int,
            rotation: self.rotation as int,
            delta_y: self.delta_y as int,
            dead: self.dead,
            hit_sound: self.hit_sound,
            lose_sound: self.lose_sound,
            animation: self.animation,
        }
    }
}

/// The player as spawned: at the start position, level, at rest, alive,
/// hovering.
pub open spec fn spawned(opts: Options) -> PlayerView {
    PlayerView {
        x: opts.player_x as int,
        y: opts.player_start_y as int,
        rotation: 0,
        delta_y: 0,
        dead: false,
        hit_sound: false,
        lose_sound: false,
        animation: PlayerAnimation::Idle,
    }
}

/// The player after a respawn: back at the start height, level, at rest and
/// alive, with both sounds due again. Horizontal position and animation stay.
pub open spec fn respawned(player: PlayerView, opts: Options) -> PlayerView {
    PlayerView {
        y: opts.player_start_y as int,
        rotation: 0,
        delta_y: 0,
        dead: false,
        hit_sound: false,
        lose_sound: false,
        ..player
    }
}

/// The player at startup.
pub fn player_setup(opts: &Options) -> (player: Player)
    ensures
        player@ == spawned(*opts),
{
    Player {
        x: opts.player_x,
        y: opts.player_start_y,
        rotation: 0,
        delta_y: 0,
        dead: false,
        hit_sound: false,
        lose_sound: false,
        animation: PlayerAnimation::Idle,
    }
}

impl Player {
    /// Respawns the player in place: back at the start height, level, at
    /// rest and alive, with both sounds due again.
    pub fn die(&mut self, opts: &Options)
        ensures
            final(self)@ == respawned(old(self)@, *opts),
    {
        self.delta_y = 0;
        self.y = opts.player_start_y;
        self.rotation = 0;
        self.dead = false;
        self.hit_sound = false;
        self.lose_sound = false;
    }
}

/// The jump control in one tick: its edges, not its level.
#[derive(PartialEq, Eq, Clone, Copy, Debug, Structural)]
pub struct JumpInput {
    /// The control went down in this tick.
    pub just_pressed: bool,
    /// The control came up in this tick.
    pub just_released: bool,
}

/// What a tick of the player asks of the world around the game.
#[derive(PartialEq, Eq, Clone, Copy, Debug, Structural)]
pub struct PlayerOutcome {
    /// The sound of the hit is due.
    pub hit_sound: bool,
    /// The sound of the lost run is due.
    pub lose_sound: bool,
    /// The record was raised and written to the storage.
    pub highscore_raised: bool,
    /// The game was reset: every pair was rebuilt.
    pub game_reset: bool,
}

/// A press of the jump control counts while a run is on or waited for.
pub open spec fn jumps(state: GameState, input: JumpInput) -> bool {
    input.just_pressed && (state == GameState::Started || state == GameState::Waiting)
}

/// The state of the game once the input is taken: a jump starts the run.
pub open spec fn state_after_input(state: GameState, input: JumpInput) -> GameState {
    if jumps(state, input) {
        GameState::Started
    } else {
        state
    }
}

/// The animation once the input is taken: a jump shows as a jump; else a
/// waiting game shows the hover, and a release of the control the fall.
pub open spec fn animation_after_input(
    state: GameState,
    animation: PlayerAnimation,
    input: JumpInput,
) -> PlayerAnimation {
    if jumps(state, input) {
        PlayerAnimation::Jump
    } else if state == GameState::Waiting {
        PlayerAnimation::Idle
    } else if input.just_released {
        PlayerAnimation::Fall
    } else {
        animation
    }
}

/// The speed with which the player moves in this tick: that of the jump, or
/// the one it had.
pub open spec fn launch_speed(
    state: GameState,
    delta_y: int,
    opts: Options,
    input: JumpInput,
) -> int {
    if jumps(state, input) {
        opts.jump_force as int
    } else {
        delta_y
    }
}

/// What the player's speed gains in a tick of `dt`, in the given state of
/// the game and animation, at height `y`.
///
/// While a run is on, gravity pulls. Unless the game is paused, the hover
/// sinks at a quarter of gravity while above its turning height, and rises at
/// half of gravity from there down; a dead player falls under twice gravity.
pub open spec fn speed_change(
    state: GameState,
    animation: PlayerAnimation,
    y: int,
    opts: Options,
    dt: int,
) -> int {
    let pull = gain(opts.gravity as int, dt);
    let run = if state == GameState::Started {
        -pull
    } else {
        0
    };
    let show = if state == GameState::Paused {
        0
    } else {
        match animation {
            PlayerAnimation::Idle => if y > opts.player_start_y - opts.idle_drop {
                -(pull / 4)
            } else {
                pull / 2
            },
            PlayerAnimation::Death => -2 * pull,
            PlayerAnimation::Jump => 0,
            PlayerAnimation::Fall => 0,
        }
    };
    run + show
}

/// How far the tilt of a dead player turns down in a tick of `dt`: half as
/// fast again as that of a falling one.
pub open spec fn death_turn(opts: Options, dt: int) -> int {
    gain(opts.rotation_speed as int, dt) * 3 / 2
}

/// The tilt after a tick of `dt`. A paused game and the hover leave it; a
/// jump snaps it to the steepest upward tilt; a fall and a death turn it
/// down at their speeds. It is held in the tilt range.
pub open spec fn tilt_after(
    state: GameState,
    animation: PlayerAnimation,
    rotation: int,
    opts: Options,
    dt: int,
) -> int {
    if state == GameState::Paused {
        rotation
    } else {
        match animation {
            PlayerAnimation::Idle => rotation,
            PlayerAnimation::Jump => opts.max_rotation as int,
            PlayerAnimation::Fall => clamped(
                rotation - gain(opts.rotation_speed as int, dt),
                opts.min_rotation as int,
                opts.max_rotation as int,
            ),
            PlayerAnimation::Death => clamped(
                rotation - death_turn(opts, dt),
                opts.min_rotation as int,
                opts.max_rotation as int,
            ),
        }
    }
}

/// The height after a tick of `dt` at `speed`: a paused game leaves it.
pub open spec fn height_after(state: GameState, y: int, speed: int, dt: int) -> int {
    if state == GameState::Paused {
        y
    } else {
        saturated(y + gain(speed, dt))
    }
}

/// The height is above the upper or below the lower edge of the screen.
pub open spec fn off_screen(y: int, opts: Options) -> bool {
    y < -opts.screen_y_boundary || y > opts.screen_y_boundary
}

/// The death animation runs in this tick.
pub open spec fn death_shown(game: GameController, player: PlayerView, input: JumpInput) -> bool {
    state_after_input(game.game_state, input) != GameState::Paused && animation_after_input(
        game.game_state,
        player.animation,
        input,
    ) == PlayerAnimation::Death
}

/// The player after the motion of one tick, before a reset of the game:
/// the input is taken, the height moves by the speed, then the speed
/// changes; a player who has left the screen is dead, and a dead player
/// shows the death animation.
pub open spec fn moved(
    game: GameController,
    player: PlayerView,
    opts: Options,
    input: JumpInput,
    dt: int,
) -> PlayerView {
    let state = state_after_input(game.game_state, input);
    let animation = animation_after_input(game.game_state, player.animation, input);
    let speed = launch_speed(game.game_state, player.delta_y, opts, input);
    let y = height_after(state, player.y, speed, dt);
    let dead = player.dead || off_screen(y, opts);
    PlayerView {
        x: player.x,
        y,
        rotation: tilt_after(state, animation, player.rotation, opts, dt),
        delta_y: saturated(speed + speed_change(state, animation, player.y, opts, dt)),
        dead,
        hit_sound: player.hit_sound || death_shown(game, player, input),
        lose_sound: player.lose_sound || (death_shown(game, player, input) && game_over(
            state,
            player.y,
            opts,
        )),
        animation: if dead {
            PlayerAnimation::Death
        } else {
            animation
        },
    }
}

/// The tick ends in a reset of the game: the player is dead and a restart
/// was asked for.
pub open spec fn resets(
    game: GameController,
    player: PlayerView,
    opts: Options,
    input: JumpInput,
    dt: int,
) -> bool {
    moved(game, player, opts, input, dt).dead && state_after_input(game.game_state, input)
        == GameState::Restart
}

/// The player after one tick.
pub open spec fn player_after(
    game: GameController,
    player: PlayerView,
    opts: Options,
    input: JumpInput,
    dt: int,
) -> PlayerView {
    if resets(game, player, opts, input, dt) {
        respawned(moved(game, player, opts, input, dt), opts)
    } else {
        moved(game, player, opts, input, dt)
    }
}

/// The game after one tick of the player: a jump starts the run; a dead
/// player finishes it and has the record raised to the score; where a
/// restart was asked for, the game starts over instead.
pub open spec fn game_after(
    game: GameController,
    player: PlayerView,
    opts: Options,
    input: JumpInput,
    dt: int,
) -> GameController {
    let state = state_after_input(game.game_state, input);
    if !moved(game, player, opts, input, dt).dead {
        GameController { game_state: state, ..game }
    } else if state == GameState::Restart {
        restarted(with_highscore(game))
    } else {
        with_highscore(GameController { game_state: GameState::Finished, ..game })
    }
}

/// What one tick of the player asks of the world around the game.
pub open spec fn outcome_of(
    game: GameController,
    player: PlayerView,
    opts: Options,
    input: JumpInput,
    dt: int,
) -> PlayerOutcome {
    PlayerOutcome {
        hit_sound: death_shown(game, player, input) && !player.hit_sound,
        lose_sound: death_shown(game, player, input) && !player.lose_sound && game_over(
            state_after_input(game.game_state, input),
            player.y,
            opts,
        ),
        highscore_raised: moved(game, player, opts, input, dt).dead && game.score
            > game.player_stats.high_score,
        game_reset: resets(game, player, opts, input, dt),
    }
}

/// One tick of the player.
///
/// Takes the input, moves the player by its speed over `dt`, changes the
/// speed and the tilt, and resolves a death: the run is finished and the
/// record raised, or, where a restart was asked for, the whole game is reset.
pub fn player_system(
    game: &mut GameController,
    player: &mut Player,
    pipes: &mut Vec<PipeParent>,
    store: &mut Storage,
    opts: &Options,
    input: JumpInput,
    dt: u32,
) -> (outcome: PlayerOutcome)
    requires
        opts.valid(),
    ensures
        outcome == outcome_of(*old(game), old(player)@, *opts, input, dt as int),
        final(player)@ == player_after(*old(game), old(player)@, *opts, input, dt as int),
        *final(game) == game_after(*old(game), old(player)@, *opts, input, dt as int),
        outcome.highscore_raised ==> *final(store) == (Storage {
            player_stats: Some(final(game).player_stats),
            ..*old(store)
        }),
        !outcome.highscore_raised ==> *final(store) == *old(store),
        !outcome.game_reset ==> final(pipes)@ == old(pipes)@,
        final(pipes).len() == old(pipes).len(),
        outcome.game_reset ==> pool_wf(final(pipes)@, *opts),
        outcome.game_reset ==> forall|i: int|
            0 <= i < final(pipes).len() ==> (#[trigger] final(pipes)[i])@ == fresh_pipe(
                *opts,
                reset_x(*opts, final(pipes).len() as int, i),
                final(pipes)[i].height_sprites as int,
            ),
{
    let mut outcome = PlayerOutcome {
        hit_sound: false,
        lose_sound: false,
        highscore_raised: false,
        game_reset: false,
    };
    let ghost game0 = *game;
    let ghost player0 = player@;

    // the input
    if input.just_pressed && (game.is_game_running() || game.game_state == GameState::Waiting) {
        player.delta_y = opts.jump_force;
        game.game_state = GameState::Started;
        player.animation = PlayerAnimation::Jump;
    } else if input.just_released {
        player.animation = PlayerAnimation::Fall;
    }
    let speed: i64 = player.delta_y;
    let pull: i128 = gain_of(opts.gravity, dt);
    let mut change: i128 = 0;
    if game.is_game_running() {
        change = change - pull;
    } else if game.game_state == GameState::Waiting {
        player.animation = PlayerAnimation::Idle;
    }
    assert(player.animation == animation_after_input(game0.game_state, player0.animation, input));
    assert(game.game_state == state_after_input(game0.game_state, input));

    // the animation
    if !game.is_game_paused() {
        match player.animation {
            PlayerAnimation::Idle => {
                if player.y as i128 > opts.player_start_y as i128 - opts.idle_drop as i128 {
                    change = change - pull / 4;
                } else {
                    change = change + pull / 2;
                }
            },
            PlayerAnimation::Jump => {
                player.rotation = opts.max_rotation;
            },
            PlayerAnimation::Death => {
                if !player.hit_sound {
                    outcome.hit_sound = true;
                    player.hit_sound = true;
                }
                if game.is_game_finished(player, opts) && !player.lose_sound {
                    outcome.lose_sound = true;
                    player.lose_sound = true;
                }
                change = change - 2 * pull;
                let turn: i128 = gain_of(opts.rotation_speed, dt) * 3 / 2;
                player.rotation = clamp_tilt(player.rotation as i128 - turn, opts);
            },
            PlayerAnimation::Fall => {
                let turn: i128 = gain_of(opts.rotation_speed, dt);
                player.rotation = clamp_tilt(player.rotation as i128 - turn, opts);
            },
        }
        let step: i128 = gain_of(speed, dt);
        player.y = saturate(player.y as i128 + step);
    }
    player.delta_y = saturate(speed as i128 + change);

    // the edges of the screen
    if player.y < -opts.screen_y_boundary || player.y > opts.screen_y_boundary {
        player.dead = true;
    }
    // a death
    if player.dead {
        if game.game_state != GameState::Restart {
            game.game_state = GameState::Finished;
        }
        player.animation = PlayerAnimation::Death;
        assert(player@ == moved(game0, player0, *opts, input, dt as int));
        outcome.highscore_raised = game.update_highscore(store);
        if game.game_state == GameState::Restart {
            game.reset_game(player, pipes, opts);
            outcome.game_reset = true;
        }
    } else {
        assert(player@ == moved(game0, player0, *opts, input, dt as int));
    }
    outcome
}

/// Holds a tilt in the configured range.
fn clamp_tilt(tilt: i128, opts: &Options) -> (r: i64)
    requires
        opts.valid(),
    ensures
        r == clamped(tilt as int, opts.min_rotation as int, opts.max_rotation as int),
{
    if tilt < opts.min_rotation as i128 {
        opts.min_rotation
    } else if tilt > opts.max_rotation as i128 {
        opts.max_rotation
    } else {
        tilt as i64
    }
}


/// A second respawn right after a first changes nothing: both leave the
/// player at the start height, level, at rest and alive.
pub proof fn lemma_respawn_idempotent(player: PlayerView, opts: Options)
    ensures
        respawned(respawned(player, opts), opts) == respawned(player, opts),
        respawned(player, opts).delta_y == 0,
        respawned(player, opts).y == opts.player_start_y,
        respawned(player, opts).rotation == 0,
        !respawned(player, opts).dead,
{
}

/// A tick never moves the player sideways, and keeps a tilt that is in the
/// tilt range in it.
pub proof fn lemma_player_invariants(
    game: GameController,
    player: PlayerView,
    opts: Options,
    input: JumpInput,
    dt: int,
)
    requires
        opts.valid(),
    ensures
        player_after(game, player, opts, input, dt).x == player.x,
        opts.min_rotation <= player.rotation <= opts.max_rotation ==> opts.min_rotation
            <= player_after(game, player, opts, input, dt).rotation <= opts.max_rotation,
{
}

/// A tick of the player leaves the score alone, unless it resets the game;
/// and the record after it is never lower than before.
pub proof fn lemma_player_keeps_score(
    game: GameController,
    player: PlayerView,
    opts: Options,
    input: JumpInput,
    dt: int,
)
    ensures
        !resets(game, player, opts, input, dt) ==> game_after(game, player, opts, input, dt).score
            == game.score,
        resets(game, player, opts, input, dt) ==> game_after(game, player, opts, input, dt).score
            == 0,
        game_after(game, player, opts, input, dt).player_stats.high_score
            >= game.player_stats.high_score,
        game_after(game, player, opts, input, dt).player_stats.high_score
            != game.player_stats.high_score ==> game.score > game.player_stats.high_score,
{
}

/// The steps of the game's state in one tick of the player: a jump that
/// counts starts the run; a death finishes it; a restart that was asked for
/// is used up by the tick of a dead player, which leaves the game waiting
/// with no points and the player alive; and nothing else changes the state.
pub proof fn lemma_state_steps(
    game: GameController,
    player: PlayerView,
    opts: Options,
    input: JumpInput,
    dt: int,
)
    ensures
        ({
            let dead = moved(game, player, opts, input, dt).dead;
            let next = game_after(game, player, opts, input, dt);
            &&& !dead && jumps(game.game_state, input) ==> next.game_state == GameState::Started
            &&& !dead && !jumps(game.game_state, input) ==> next.game_state == game.game_state
            &&& dead && game.game_state != GameState::Restart ==> next.game_state
                == GameState::Finished
            &&& dead && game.game_state == GameState::Restart ==> next.game_state
                == GameState::Waiting && next.score == 0 && !player_after(
                game,
                player,
                opts,
                input,
                dt,
            ).dead
            &&& player.dead ==> dead
            &&& next.before_pause == game.before_pause
            &&& next.settings == game.settings
        }),
{
}

/// Each sound of a death is due once: when it has been played, no tick
/// asks for it again until the player respawns.
pub proof fn lemma_sounds_once(
    game: GameController,
    player: PlayerView,
    opts: Options,
    input: JumpInput,
    dt: int,
)
    ensures
        player.hit_sound ==> !outcome_of(game, player, opts, input, dt).hit_sound,
        player.lose_sound ==> !outcome_of(game, player, opts, input, dt).lose_sound,
        outcome_of(game, player, opts, input, dt).hit_sound ==> moved(
            game,
            player,
            opts,
            input,
            dt,
        ).hit_sound,
        outcome_of(game, player, opts, input, dt).lose_sound ==> moved(
            game,
            player,
            opts,
            input,
            dt,
        ).lose_sound,
{
}

/// Height and speed after `ticks` ticks of `dt` each of a run in which the
/// player falls freely: no input, no edge of the screen reached, no limit
/// of the number range reached.
pub open spec fn free_fall(y: int, speed: int, opts: Options, dt: int, ticks: nat) -> (int, int)
    decreases ticks,
{
    if ticks == 0 {
        (y, speed)
    } else {
        free_fall(
            y + gain(speed, dt),
            speed + speed_change(GameState::Started, PlayerAnimation::Fall, y, opts, dt),
            opts,
            dt,
            (ticks - 1) as nat,
        )
    }
}

/// One tick of a run without input moves a falling player as one tick of
/// free fall does, as long as the numbers stay in range.
pub proof fn lemma_tick_is_free_fall(
    game: GameController,
    player: PlayerView,
    opts: Options,
    dt: int,
)
    requires
        game.game_state == GameState::Started,
        player.animation == PlayerAnimation::Fall,
    ensures
        ({
            let input = JumpInput { just_pressed: false, just_released: false };
            let next = free_fall(player.y, player.delta_y, opts, dt, 1);
            &&& moved(game, player, opts, input, dt).y == saturated(next.0)
            &&& moved(game, player, opts, input, dt).delta_y == saturated(next.1)
        }),
{
    reveal_with_fuel(free_fall, 2);
}

/// Free fall in closed form: the speed falls by gravity times the time
/// that has passed, and the height is the sum of the steps taken at the
/// speeds before each tick.
pub proof fn lemma_free_fall_closed_form(
    y: int,
    speed: int,
    opts: Options,
    dt: int,
    ticks: nat,
)
    ensures
        free_fall(y, speed, opts, dt, ticks).1 == speed - (opts.gravity * dt) * ticks,
        2 * free_fall(y, speed, opts, dt, ticks).0 == 2 * y + 2 * (ticks * (speed * dt)) - (
        opts.gravity * dt * dt) * (ticks * (ticks - 1)),
    decreases ticks,
{
    let g = opts.gravity as int;
    let n = ticks as int;
    let step = speed * dt;
    let pull = g * dt;
    let drop = g * dt * dt;
    if ticks > 0 {
        let m = n - 1;
        let y1 = y + gain(speed, dt);
        let v1 = speed + speed_change(GameState::Started, PlayerAnimation::Fall, y, opts, dt);
        assert(v1 == speed - pull);
        lemma_free_fall_closed_form(y1, v1, opts, dt, m as nat);
        let end = free_fall(y, speed, opts, dt, ticks);
        assert(end == free_fall(y1, v1, opts, dt, m as nat));
        assert(v1 * dt == step - drop) by (nonlinear_arith)
            requires
                v1 == speed - g * dt,
                step == speed * dt,
                drop == g * dt * dt,
        ;
        assert(pull * n == pull * m + pull) by (nonlinear_arith)
            requires
                n == m + 1,
        ;
        assert(m * (step - drop) == m * step - m * drop) by (nonlinear_arith);
        assert(n * step == m * step + step) by (nonlinear_arith)
            requires
                n == m + 1,
        ;
        assert(drop * (n * (n - 1)) == drop * (m * (m - 1)) + 2 * (m * drop)) by (nonlinear_arith)
            requires
                n == m + 1,
        ;
    } else {
        assert(pull * 0 == 0) by (nonlinear_arith);
        assert(0 * step == 0) by (nonlinear_arith);
        assert(drop * (0 * (0 - 1)) == 0) by (nonlinear_arith);
    }
}

/// Free fall does not depend on the frame rate in its speed, and depends on
/// it in its height by a known amount: `2 * ticks` ticks of `dt` each end at
/// the speed of `ticks` ticks of `2 * dt` each, and lower by gravity times
/// `dt * dt * ticks`, half of gravity times `dt` times the time that has
/// passed, which vanishes as the ticks get shorter.
pub proof fn lemma_frame_rate_independence(
    y: int,
    speed: int,
    opts: Options,
    dt: int,
    ticks: nat,
)
    ensures
        free_fall(y, speed, opts, dt, 2 * ticks).1 == free_fall(y, speed, opts, 2 * dt, ticks).1,
        free_fall(y, speed, opts, dt, 2 * ticks).0 == free_fall(y, speed, opts, 2 * dt, ticks).0 - (
        opts.gravity * dt * dt) * ticks,
        (opts.gravity * dt * dt) * ticks == 0 ==> free_fall(y, speed, opts, dt, 2 * ticks)
            == free_fall(y, speed, opts, 2 * dt, ticks),
{
    let g = opts.gravity as int;
    let n = ticks as int;
    let step = speed * dt;
    let pull = g * dt;
    let drop = g * dt * dt;
    lemma_free_fall_closed_form(y, speed, opts, dt, 2 * ticks);
    lemma_free_fall_closed_form(y, speed, opts, 2 * dt, ticks);
    assert(g * (2 * dt) == 2 * pull) by (nonlinear_arith)
        requires
            pull == g * dt,
    ;
    assert(pull * (2 * n) == (2 * pull) * n) by (nonlinear_arith);
    assert(speed * (2 * dt) == 2 * step) by (nonlinear_arith)
        requires
            step == speed * dt,
    ;
    assert(g * (2 * dt) * (2 * dt) == 4 * drop) by (nonlinear_arith)
        requires
            drop == g * dt * dt,
    ;
    assert((2 * n) * step == n * (2 * step)) by (nonlinear_arith);
    assert(drop * ((2 * n) * (2 * n - 1)) == (4 * drop) * (n * (n - 1)) + 2 * (drop * n))
        by (nonlinear_arith);
}

} // verus!
