//! The game-state machine: the lifecycle of a run, the score, and the
//! player's saved records.

use vstd::prelude::*;
use crate::options::Options;
use crate::pipes::{fresh_pipe, pipe_wf, pool_wf, PipeParent};
use crate::player::{respawned, Player};

verus! {

/// Where a run stands.
#[derive(PartialEq, Eq, Clone, Copy, Debug, Structural)]
pub enum GameState {
    /// Nothing moves yet; the first jump starts the run.
    Waiting,
    /// A run is on.
    Started,
    /// A run is suspended; the state to go back to is remembered.
    Paused,
    /// The player has died.
    Finished,
    /// A new run was asked for; the next tick of the player resets the game.
    Restart,
}

/// The player's saved record.
#[derive(PartialEq, Eq, Clone, Copy, Debug, Structural)]
pub struct PlayerStatistics {
    /// Best score of all runs.
    pub high_score: u32,
}

/// Loudest volume level: levels are percentages.
pub const FULL_VOLUME: u32 = 100;

/// The player's saved preferences.
#[derive(PartialEq, Eq, Clone, Copy, Debug, Structural)]
pub struct GameSettings {
    /// Volume of the music, in percent.
    pub music_vol_level: u32,
    /// Volume of the sound effects, in percent.
    pub effects_vol_level: u32,
    /// Whether the frame rate is shown.
    pub show_fps: bool,
}

impl GameSettings {
    /// Both volume levels are percentages.
    pub open spec fn valid(&self) -> bool {
        self.music_vol_level <= FULL_VOLUME && self.effects_vol_level <= FULL_VOLUME
    }

    /// The preferences of a first start: both volumes at half, no frame rate.
    pub open spec fn initial() -> GameSettings {
        GameSettings { music_vol_level: 50, effects_vol_level: 50, show_fps: false }
    }

    /// Whether both volume levels are percentages.
    pub fn is_valid(&self) -> (r: bool)
        ensures
            r == self.valid(),
    {
        self.music_vol_level <= FULL_VOLUME && self.effects_vol_level <= FULL_VOLUME
    }
}

impl Default for GameSettings {
    fn default() -> (settings: GameSettings)
        ensures
            settings == GameSettings::initial(),
    {
        GameSettings { music_vol_level: 50, effects_vol_level: 50, show_fps: false }
    }
}

/// What is kept between sessions, as last written: each record is absent
/// until it has been saved once.
#[derive(PartialEq, Eq, Clone, Copy, Debug, Structural)]
pub struct Storage {
    /// The saved record of the player, if any.
    pub player_stats: Option<PlayerStatistics>,
    /// The saved preferences, if any.
    pub game_settings: Option<GameSettings>,
}

impl Storage {
    /// A storage that holds nothing yet.
    pub fn empty() -> (store: Storage)
        ensures
            store == (Storage { player_stats: None, game_settings: None }),
    {
        Storage { player_stats: None, game_settings: None }
    }

    /// The record to start from: the saved one, or a high score of zero.
    pub open spec fn stats_or_default(&self) -> PlayerStatistics {
        match self.player_stats {
            Some(stats) => stats,
            None => PlayerStatistics { high_score: 0 },
        }
    }

    /// The preferences to start from: the saved ones where they are
    /// usable, else those of a first start.
    pub open spec fn settings_or_default(&self) -> GameSettings {
        match self.game_settings {
            Some(settings) => if settings.valid() {
                settings
            } else {
                GameSettings::initial()
            },
            None => GameSettings::initial(),
        }
    }
}

/// The state of the game as a whole.
#[derive(PartialEq, Eq, Clone, Copy, Debug, Structural)]
pub struct GameController {
    /// Where the run stands.
    pub game_state: GameState,
    /// The state that a pause interrupted.
    pub before_pause: GameState,
    /// Speed-up over the base scroll speed, in thousandths; zero is the
    /// base speed.
    pub speed_multiplier: u32,
    /// Points of the current run.
    pub score: u32,
    /// The player's record.
    pub player_stats: PlayerStatistics,
    /// The player's preferences.
    pub settings: GameSettings,
}

/// The game waits for its first jump, paused or not.
pub open spec fn was_waiting(game: GameController) -> bool {
    game.game_state == GameState::Waiting || (game.game_state == GameState::Paused
        && game.before_pause == GameState::Waiting)
}

/// A run has started, paused or not.
pub open spec fn has_started(game: GameController) -> bool {
    game.game_state == GameState::Started || (game.game_state == GameState::Paused
        && game.before_pause == GameState::Started)
}

/// The game with the pause overlay put on: the interrupted state is kept.
pub open spec fn paused(game: GameController) -> GameController {
    GameController { before_pause: game.game_state, game_state: GameState::Paused, ..game }
}

/// The state that ends a pause: the interrupted one, except that a
/// finished run goes on to its restart.
pub open spec fn resume_state(before_pause: GameState) -> GameState {
    if before_pause == GameState::Finished {
        GameState::Restart
    } else {
        before_pause
    }
}

/// The game with the pause overlay taken off.
pub open spec fn resumed(game: GameController) -> GameController {
    GameController { game_state: resume_state(game.before_pause), ..game }
}

/// The game with the record raised to the score, where the score beats it.
pub open spec fn with_highscore(game: GameController) -> GameController {
    if game.score > game.player_stats.high_score {
        GameController { player_stats: PlayerStatistics { high_score: game.score }, ..game }
    } else {
        game
    }
}

/// The game at the start of a new run: waiting, no points, base speed.
pub open spec fn restarted(game: GameController) -> GameController {
    GameController { game_state: GameState::Waiting, score: 0, speed_multiplier: 0, ..game }
}

/// Where pair `index` of a pool of `count` pairs stands after a reset.
pub open spec fn reset_x(opts: Options, count: int, index: int) -> int {
    opts.pipes_start_x + index * opts.reset_spacing(count)
}

impl GameController {
    /// A run is on.
    pub open spec fn is_running(&self) -> bool {
        self.game_state == GameState::Started
    }

    /// The game at startup: waiting, with no points, and with the saved
    /// record and preferences, or their defaults where nothing usable was
    /// saved.
    pub fn new(store: &Storage) -> (game: GameController)
        ensures
            game == (GameController {
                game_state: GameState::Waiting,
                before_pause: GameState::Waiting,
                speed_multiplier: 0,
                score: 0,
                player_stats: store.stats_or_default(),
                settings: store.settings_or_default(),
            }),
            game.settings.valid(),
    {
        let player_stats = match store.player_stats {
            Some(stats) => stats,
            None => PlayerStatistics { high_score: 0 },
        };
        let settings = match store.game_settings {
            Some(saved) => if saved.is_valid() {
                saved
            } else {
                GameSettings::default()
            },
            None => GameSettings::default(),
        };
        GameController {
            game_state: GameState::Waiting,
            before_pause: GameState::Waiting,
            speed_multiplier: 0,
            score: 0,
            player_stats,
            settings,
        }
    }

    /// Raises the record to the score where the score beats it, and writes
    /// the new record through to the storage. Tells whether it did.
    pub fn update_highscore(&mut self, store: &mut Storage) -> (raised: bool)
        ensures
            raised == (old(self).score > old(self).player_stats.high_score),
            *final(self) == with_highscore(*old(self)),
            raised ==> *final(store) == (Storage {
                player_stats: Some(final(self).player_stats),
                ..*old(store)
            }),
            !raised ==> *final(store) == *old(store),
    {
        if self.score > self.player_stats.high_score {
            self.player_stats.high_score = self.score;
            self.save_player_stats(store);
            true
        } else {
            false
        }
    }

    /// Starts over: the game waits with no points at base speed, the player
    /// respawns, and the pairs are rebuilt with newly drawn heights, evenly
    /// spaced over the width of the screen from the start position.
    pub fn reset_game(&mut self, player: &mut Player, pipes: &mut Vec<PipeParent>, opts: &Options)
        requires
            opts.valid(),
        ensures
            *final(self) == restarted(*old(self)),
            final(player)@ == respawned(old(player)@, *opts),
            final(pipes).len() == old(pipes).len(),
            pool_wf(final(pipes)@, *opts),
            forall|i: int|
                0 <= i < final(pipes).len() ==> (#[trigger] final(pipes)[i])@ == fresh_pipe(
                    *opts,
                    reset_x(*opts, final(pipes).len() as int, i),
                    final(pipes)[i].height_sprites as int,
                ),
    {
        self.game_state = GameState::Waiting;
        self.score = 0;
        self.speed_multiplier = 0;
        player.die(opts);
        let count: usize = pipes.len();
        let spacing: i64 = opts.reset_spacing_of(count);
        let mut i: usize = 0;
        while i < count
            invariant
                opts.valid(),
                count == pipes.len(),
                i <= count,
                spacing == opts.reset_spacing(count as int),
                0 <= spacing,
                count as int * spacing <= 2 * opts.screen_x_boundary,
                forall|k: int| 0 <= k < i ==> pipe_wf(#[trigger] pipes[k]@, *opts),
                forall|k: int|
                    0 <= k < i ==> (#[trigger] pipes[k])@ == fresh_pipe(
                        *opts,
                        reset_x(*opts, count as int, k),
                        pipes[k].height_sprites as int,
                    ),
            decreases count - i,
        {
            assert(0 <= i as int * spacing <= count as int * spacing) by (nonlinear_arith)
                requires
                    0 <= i < count,
                    0 <= spacing,
            ;
            let offset: i128 = (i as i128) * (spacing as i128);
            let x: i64 = (opts.pipes_start_x as i128 + offset) as i64;
            pipes[i].reset(opts, x);
            i = i + 1;
        }
    }

    /// Whether the game waits for its first jump, paused or not.
    pub fn was_game_waiting(&self) -> (r: bool)
        ensures
            r == was_waiting(*self),
    {
        self.game_state == GameState::Waiting || (self.game_state == GameState::Paused
            && self.before_pause == GameState::Waiting)
    }

    /// Whether a run is on.
    pub fn is_game_running(&self) -> (r: bool)
        ensures
            r == self.is_running(),
    {
        self.game_state == GameState::Started
    }

    /// Whether a run has started, paused or not.
    pub fn has_game_started(&self) -> (r: bool)
        ensures
            r == has_started(*self),
    {
        self.game_state == GameState::Started || (self.game_state == GameState::Paused
            && self.before_pause == GameState::Started)
    }

    /// Whether the game is paused.
    pub fn is_game_paused(&self) -> (r: bool)
        ensures
            r == (self.game_state == GameState::Paused),
    {
        self.game_state == GameState::Paused
    }

    /// Whether the run is over for the eye too: the player has died and has
    /// fallen below the lower edge of the screen.
    pub fn is_game_finished(&self, player: &Player, opts: &Options) -> (r: bool)
        requires
            opts.valid(),
        ensures
            r == game_over(self.game_state, player.y as int, *opts),
    {
        self.game_state == GameState::Finished && player.y < -opts.screen_y_boundary
    }

    /// Puts the pause overlay on and remembers the interrupted state.
    pub fn pause_game(&mut self)
        ensures
            *final(self) == paused(*old(self)),
    {
        self.before_pause = self.game_state;
        self.game_state = GameState::Paused;
    }

    /// Takes the pause overlay off: the game returns to the interrupted
    /// state, or to its restart where the interrupted run was finished.
    pub fn resume_game(&mut self)
        ensures
            *final(self) == resumed(*old(self)),
    {
        if self.before_pause == GameState::Finished {
            self.game_state = GameState::Restart;
        } else {
            self.game_state = self.before_pause;
        }
    }

    /// Writes the player's record to the storage.
    pub fn save_player_stats(&self, store: &mut Storage)
        ensures
            *final(store) == (Storage { player_stats: Some(self.player_stats), ..*old(store) }),
    {
        store.player_stats = Some(self.player_stats);
    }

    /// Writes the player's preferences to the storage.
    pub fn save_settings(&self, store: &mut Storage)
        ensures
            *final(store) == (Storage { game_settings: Some(self.settings), ..*old(store) }),
    {
        store.game_settings = Some(self.settings);
    }
}

/// The run is finished and the player, at height `y`, is below the lower
/// edge of the screen.
pub open spec fn game_over(state: GameState, y: int, opts: Options) -> bool {
    state == GameState::Finished && y < -opts.screen_y_boundary
}

/// The record changes only where the score beats it, and then it becomes
/// the score: it never goes down, and with a score that does not beat it,
/// raising it again changes nothing.
pub proof fn lemma_highscore_write_through(game: GameController)
    ensures
        with_highscore(game).player_stats.high_score >= game.player_stats.high_score,
        with_highscore(game).player_stats.high_score >= game.score,
        with_highscore(game) != game <==> game.score > game.player_stats.high_score,
        game.score > game.player_stats.high_score ==> with_highscore(game).player_stats.high_score
            == game.score,
        with_highscore(with_highscore(game)) == with_highscore(game),
        with_highscore(game).score == game.score,
{
}

/// A pause that is taken off again returns the game to the state it
/// interrupted, with nothing else changed; only a finished run goes on to
/// its restart.
pub proof fn lemma_pause_then_resume(game: GameController)
    ensures
        resumed(paused(game)) == (GameController {
            before_pause: game.game_state,
            game_state: if game.game_state == GameState::Finished {
                GameState::Restart
            } else {
                game.game_state
            },
            ..game
        }),
{
}


} // verus!
