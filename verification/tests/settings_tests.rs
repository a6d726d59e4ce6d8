use flappy_bevy::game_controller::{
    GameController, GameSettings, GameState, PlayerStatistics, Storage,
};
use flappy_bevy::hud::{hud, GameOverPanel, Hud, RecordLine, ScoreLine};
use flappy_bevy::options::Options;
use flappy_bevy::player::player_setup;
use flappy_bevy::settings::SettingsButtonType;

fn fresh() -> (GameController, Storage) {
    let store = Storage::empty();
    (GameController::new(&store), store)
}

#[test]
fn volume_buttons_step_by_five_percent() {
    let (mut game, mut store) = fresh();
    let visible = game.settings_button_pressed(
        &mut store,
        SettingsButtonType::MusicVolumePlus,
        true,
    );
    assert!(visible);
    assert_eq!(game.settings.music_vol_level, 55);
    assert_eq!(game.settings.effects_vol_level, 50);
    assert_eq!(store.game_settings, Some(game.settings));
    assert_eq!(store.player_stats, None);
    game.settings_button_pressed(&mut store, SettingsButtonType::EffectsVolumeMinus, true);
    assert_eq!(game.settings.effects_vol_level, 45);
    assert_eq!(game.settings.music_vol_level, 55);
    assert_eq!(store.game_settings, Some(game.settings));
}

#[test]
fn volume_stops_at_silence_and_at_full() {
    let (mut game, mut store) = fresh();
    game.settings.music_vol_level = 3;
    game.settings_button_pressed(&mut store, SettingsButtonType::MusicVolumeMinus, true);
    assert_eq!(game.settings.music_vol_level, 0);
    game.settings_button_pressed(&mut store, SettingsButtonType::MusicVolumeMinus, true);
    assert_eq!(game.settings.music_vol_level, 0);
    game.settings.effects_vol_level = 97;
    game.settings_button_pressed(&mut store, SettingsButtonType::EffectsVolumePlus, true);
    assert_eq!(game.settings.effects_vol_level, 100);
    game.settings_button_pressed(&mut store, SettingsButtonType::EffectsVolumePlus, true);
    assert_eq!(game.settings.effects_vol_level, 100);
    game.settings.effects_vol_level = 95;
    game.settings_button_pressed(&mut store, SettingsButtonType::EffectsVolumePlus, true);
    assert_eq!(game.settings.effects_vol_level, 100);
    game.settings.music_vol_level = 5;
    game.settings_button_pressed(&mut store, SettingsButtonType::MusicVolumeMinus, true);
    assert_eq!(game.settings.music_vol_level, 0);
}

#[test]
fn frame_rate_button_toggles() {
    let (mut game, mut store) = fresh();
    game.settings_button_pressed(&mut store, SettingsButtonType::FPSShow, true);
    assert!(game.settings.show_fps);
    assert_eq!(
        store.game_settings,
        Some(GameSettings { music_vol_level: 50, effects_vol_level: 50, show_fps: true })
    );
    game.settings_button_pressed(&mut store, SettingsButtonType::FPSShow, true);
    assert!(!game.settings.show_fps);
}

#[test]
fn reset_button_forgets_the_record() {
    let (mut game, mut store) = fresh();
    game.player_stats.high_score = 40;
    game.score = 12;
    let visible = game.settings_button_pressed(&mut store, SettingsButtonType::Reset, true);
    assert!(visible);
    assert_eq!(game.player_stats.high_score, 0);
    assert_eq!(game.score, 12);
    assert_eq!(store.player_stats, Some(PlayerStatistics { high_score: 0 }));
    assert_eq!(store.game_settings, Some(game.settings));
}

#[test]
fn close_button_and_escape_toggle_the_pause() {
    let (mut game, mut store) = fresh();
    game.game_state = GameState::Started;
    let visible = game.escape_pressed(false);
    assert!(visible);
    assert_eq!(game.game_state, GameState::Paused);
    assert_eq!(game.before_pause, GameState::Started);
    let visible = game.settings_button_pressed(&mut store, SettingsButtonType::Close, visible);
    assert!(!visible);
    assert_eq!(game.game_state, GameState::Started);
    let visible = game.toggle_settings(visible);
    assert!(visible);
    assert!(game.is_game_paused());
}

#[test]
fn escape_is_ignored_over_a_finished_run() {
    let (mut game, _) = fresh();
    game.game_state = GameState::Finished;
    let before = game;
    assert!(!game.escape_pressed(false));
    assert_eq!(game, before);
}

#[test]
fn retry_asks_for_a_restart() {
    let (mut game, _) = fresh();
    game.game_state = GameState::Finished;
    game.score = 8;
    game.retry_pressed();
    assert_eq!(game.game_state, GameState::Restart);
    assert_eq!(game.score, 8);
}

#[test]
fn hud_while_waiting() {
    let opts = Options::standard();
    let player = player_setup(&opts);
    let (mut game, _) = fresh();
    game.player_stats.high_score = 6;
    assert_eq!(
        hud(&game, &player, &opts),
        Hud {
            start_message: true,
            score_line: ScoreLine::HighScore(6),
            record_line: RecordLine::Hidden,
            fps: false,
            game_over: None,
        }
    );
    game.pause_game();
    let shown = hud(&game, &player, &opts);
    assert!(shown.start_message);
    assert_eq!(shown.score_line, ScoreLine::HighScore(6));
    assert_eq!(shown.record_line, RecordLine::Unchanged);
}

#[test]
fn hud_during_a_run() {
    let opts = Options::standard();
    let player = player_setup(&opts);
    let (mut game, _) = fresh();
    game.game_state = GameState::Started;
    game.player_stats.high_score = 2;
    game.settings.show_fps = true;
    game.score = 2;
    let shown = hud(&game, &player, &opts);
    assert!(!shown.start_message);
    assert!(shown.fps);
    assert_eq!(shown.score_line, ScoreLine::Score(2));
    assert_eq!(shown.record_line, RecordLine::Record(2));
    game.score = 3;
    assert_eq!(hud(&game, &player, &opts).record_line, RecordLine::NewHighScore);
    game.score = 4;
    assert_eq!(hud(&game, &player, &opts).record_line, RecordLine::Blank);
    assert_eq!(hud(&game, &player, &opts).game_over, None);
}

#[test]
fn hud_over_a_finished_run() {
    let opts = Options::standard();
    let mut player = player_setup(&opts);
    let (mut game, _) = fresh();
    game.game_state = GameState::Finished;
    game.score = 3;
    game.player_stats.high_score = 9;
    let shown = hud(&game, &player, &opts);
    assert_eq!(shown.game_over, None);
    assert_eq!(shown.score_line, ScoreLine::Score(3));
    assert_eq!(shown.record_line, RecordLine::Unchanged);
    player.y = -600_000_000;
    assert_eq!(
        hud(&game, &player, &opts),
        Hud {
            start_message: false,
            score_line: ScoreLine::Hidden,
            record_line: RecordLine::Hidden,
            fps: false,
            game_over: Some(GameOverPanel { score: 3, high_score: 9 }),
        }
    );
}
