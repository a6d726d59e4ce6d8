//! What the texts on the screen show, as a function of the game.

use vstd::prelude::*;
use crate::game_controller::{game_over, has_started, was_waiting, GameController, GameState};
use crate::options::Options;
use crate::player::Player;

verus! {

/// The large line of the score.
#[derive(PartialEq, Eq, Clone, Copy, Debug, Structural)]
pub enum ScoreLine {
    /// Nothing is shown.
    Hidden,
    /// The record, under its title.
    HighScore(u32),
    /// The score of the run.
    Score(u32),
}

/// The small line of the record.
#[derive(PartialEq, Eq, Clone, Copy, Debug, Structural)]
pub enum RecordLine {
    /// Nothing is shown.
    Hidden,
    /// The record.
    Record(u32),
    /// The news that the record has just been beaten.
    NewHighScore,
    /// An empty line.
    Blank,
    /// The line stays as it was.
    Unchanged,
}

/// The panel of a finished run.
#[derive(PartialEq, Eq, Clone, Copy, Debug, Structural)]
pub struct GameOverPanel {
    /// The score of the run.
    pub score: u32,
    /// The record.
    pub high_score: u32,
}

/// All that the texts on the screen show.
#[derive(PartialEq, Eq, Clone, Copy, Debug, Structural)]
pub struct Hud {
    /// The invitation to start is visible.
    pub start_message: bool,
    /// The large line of the score.
    pub score_line: ScoreLine,
    /// The small line of the record.
    pub record_line: RecordLine,
    /// The frame rate is visible.
    pub fps: bool,
    /// The panel of a finished run, where it is up.
    pub game_over: Option<GameOverPanel>,
}

/// The large line: hidden over a finished run, the record while the game
/// waits, else the score.
pub open spec fn score_line_of(game: GameController, finished: bool) -> ScoreLine {
    if finished {
        ScoreLine::Hidden
    } else if was_waiting(game) {
        ScoreLine::HighScore(game.player_stats.high_score)
    } else {
        ScoreLine::Score(game.score)
    }
}

/// The small line: hidden over a finished run and while the game waits;
/// during a run the record, then the news when the score is one beyond it,
/// then nothing.
pub open spec fn record_line_of(game: GameController, finished: bool) -> RecordLine {
    if finished || game.game_state == GameState::Waiting {
        RecordLine::Hidden
    } else if has_started(game) {
        if game.score <= game.player_stats.high_score {
            RecordLine::Record(game.player_stats.high_score)
        } else if game.score - 1 == game.player_stats.high_score {
            RecordLine::NewHighScore
        } else {
            RecordLine::Blank
        }
    } else {
        RecordLine::Unchanged
    }
}

/// What the texts show for the game and a player at height `y`.
pub open spec fn hud_of(game: GameController, y: int, opts: Options) -> Hud {
    let finished = game_over(game.game_state, y, opts);
    Hud {
        start_message: was_waiting(game),
        score_line: score_line_of(game, finished),
        record_line: record_line_of(game, finished),
        fps: game.settings.show_fps,
        game_over: if finished {
            Some(GameOverPanel { score: game.score, high_score: game.player_stats.high_score })
        } else {
            None
        },
    }
}

/// What the texts on the screen show.
pub fn hud(game: &GameController, player: &Player, opts: &Options) -> (shown: Hud)
    requires
        opts.valid(),
    ensures
        shown == hud_of(*game, player.y as int, *opts),
{
    let finished: bool = game.is_game_finished(player, opts);
    let score_line = if finished {
        ScoreLine::Hidden
    } else if game.was_game_waiting() {
        ScoreLine::HighScore(game.player_stats.high_score)
    } else {
        ScoreLine::Score(game.score)
    };
    let record_line = if finished || game.game_state == GameState::Waiting {
        RecordLine::Hidden
    } else if game.has_game_started() {
        if game.score <= game.player_stats.high_score {
            RecordLine::Record(game.player_stats.high_score)
        } else if game.score - 1 == game.player_stats.high_score {
            RecordLine::NewHighScore
        } else {
            RecordLine::Blank
        }
    } else {
        RecordLine::Unchanged
    };
    Hud {
        start_message: game.was_game_waiting(),
        score_line,
        record_line,
        fps: game.settings.show_fps,
        game_over: if finished {
            Some(GameOverPanel { score: game.score, high_score: game.player_stats.high_score })
        } else {
            None
        },
    }
}

} // verus!
