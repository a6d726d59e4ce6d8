use flappy_bevy::game_controller::{
    GameController, GameSettings, GameState, PlayerStatistics, Storage,
};
use flappy_bevy::options::Options;
use flappy_bevy::pipes::{pipes_setup, pool_is_well_formed, PipeParent};
use flappy_bevy::player::{player_setup, PlayerAnimation};

fn fresh_game() -> GameController {
    GameController::new(&Storage::empty())
}

#[test]
fn new_game_uses_defaults_on_empty_storage() {
    let game = fresh_game();
    assert_eq!(game.game_state, GameState::Waiting);
    assert_eq!(game.before_pause, GameState::Waiting);
    assert_eq!(game.score, 0);
    assert_eq!(game.speed_multiplier, 0);
    assert_eq!(game.player_stats, PlayerStatistics { high_score: 0 });
    assert_eq!(
        game.settings,
        GameSettings { music_vol_level: 50, effects_vol_level: 50, show_fps: false }
    );
    assert_eq!(GameSettings::default(), game.settings);
}

#[test]
fn new_game_loads_saved_records() {
    let store = Storage {
        player_stats: Some(PlayerStatistics { high_score: 17 }),
        game_settings: Some(GameSettings {
            music_vol_level: 0,
            effects_vol_level: 100,
            show_fps: true,
        }),
    };
    let game = GameController::new(&store);
    assert_eq!(game.player_stats.high_score, 17);
    assert_eq!(game.settings.music_vol_level, 0);
    assert_eq!(game.settings.effects_vol_level, 100);
    assert!(game.settings.show_fps);
}

#[test]
fn new_game_replaces_unusable_settings() {
    let store = Storage {
        player_stats: None,
        game_settings: Some(GameSettings {
            music_vol_level: 101,
            effects_vol_level: 10,
            show_fps: true,
        }),
    };
    let game = GameController::new(&store);
    assert_eq!(game.settings, GameSettings::default());
}

#[test]
fn state_queries() {
    let opts = Options::standard();
    let mut player = player_setup(&opts);
    let mut game = fresh_game();
    assert!(game.was_game_waiting());
    assert!(!game.is_game_running());
    assert!(!game.has_game_started());
    assert!(!game.is_game_paused());
    assert!(!game.is_game_finished(&player, &opts));

    game.game_state = GameState::Started;
    assert!(!game.was_game_waiting());
    assert!(game.is_game_running());
    assert!(game.has_game_started());

    game.pause_game();
    assert!(game.is_game_paused());
    assert!(game.has_game_started());
    assert!(!game.is_game_running());
    assert!(!game.was_game_waiting());

    game.game_state = GameState::Finished;
    player.y = -500_000_000;
    assert!(!game.is_game_finished(&player, &opts));
    player.y = -500_000_001;
    assert!(game.is_game_finished(&player, &opts));
    game.game_state = GameState::Started;
    assert!(!game.is_game_finished(&player, &opts));
}

#[test]
fn pause_remembers_and_resume_restores() {
    let mut game = fresh_game();
    game.pause_game();
    assert_eq!(game.game_state, GameState::Paused);
    assert_eq!(game.before_pause, GameState::Waiting);
    assert!(game.was_game_waiting());
    game.resume_game();
    assert_eq!(game.game_state, GameState::Waiting);

    game.game_state = GameState::Started;
    game.pause_game();
    game.resume_game();
    assert_eq!(game.game_state, GameState::Started);
}

#[test]
fn resume_from_finished_routes_to_restart() {
    let mut game = fresh_game();
    game.game_state = GameState::Finished;
    game.pause_game();
    assert_eq!(game.before_pause, GameState::Finished);
    game.resume_game();
    assert_eq!(game.game_state, GameState::Restart);
}

#[test]
fn update_highscore_raises_and_writes_through() {
    let mut store = Storage::empty();
    let mut game = fresh_game();
    game.score = 4;
    assert!(game.update_highscore(&mut store));
    assert_eq!(game.player_stats.high_score, 4);
    assert_eq!(store.player_stats, Some(PlayerStatistics { high_score: 4 }));
    assert_eq!(store.game_settings, None);
    assert_eq!(game.score, 4);
}

#[test]
fn update_highscore_is_idle_when_not_beaten() {
    let mut store = Storage::empty();
    let mut game = fresh_game();
    game.player_stats.high_score = 9;
    game.score = 9;
    let before = game;
    assert!(!game.update_highscore(&mut store));
    assert_eq!(game, before);
    assert_eq!(store, Storage::empty());
    game.score = 3;
    assert!(!game.update_highscore(&mut store));
    assert_eq!(game.player_stats.high_score, 9);
    assert_eq!(store.player_stats, None);
}

#[test]
fn update_highscore_twice_changes_nothing_more() {
    let mut store = Storage::empty();
    let mut game = fresh_game();
    game.score = 12;
    assert!(game.update_highscore(&mut store));
    let after_first = game;
    let store_first = store;
    assert!(!game.update_highscore(&mut store));
    assert_eq!(game, after_first);
    assert_eq!(store, store_first);
}

#[test]
fn save_writes_the_in_memory_value() {
    let mut store = Storage::empty();
    let mut game = fresh_game();
    game.player_stats.high_score = 33;
    game.save_player_stats(&mut store);
    assert_eq!(store.player_stats, Some(game.player_stats));
    game.settings.show_fps = true;
    game.save_settings(&mut store);
    assert_eq!(store.game_settings, Some(game.settings));
    assert_eq!(store.player_stats, Some(PlayerStatistics { high_score: 33 }));
}

fn scenario_options() -> Options {
    let mut opts = Options::standard();
    opts.sprite_size = 64;
    opts.screen_x_boundary = 875;
    opts.screen_y_boundary = 500;
    opts.pipes_number = 5;
    opts.pipes_start_x = 300;
    opts.pipes_gap_between = 350;
    opts.player_x = -64;
    opts.player_start_y = -200;
    opts.idle_drop = 20;
    opts
}

#[test]
fn reset_game_lays_the_pool_out_evenly() {
    let opts = scenario_options();
    assert_eq!(opts.validate(), Ok(()));
    let mut game = fresh_game();
    let mut player = player_setup(&opts);
    let mut pipes: Vec<PipeParent> = pipes_setup(&opts);
    assert_eq!(pipes.len(), 5);
    game.game_state = GameState::Finished;
    game.score = 7;
    game.speed_multiplier = 250;
    player.dead = true;
    player.y = -900;
    player.delta_y = -77;
    player.rotation = -3;
    game.reset_game(&mut player, &mut pipes, &opts);
    assert_eq!(opts.reset_spacing_of(5), 350);
    let mut i: usize = 0;
    while i < 5 {
        assert_eq!(pipes[i].x, 300 + (i as i64) * 350);
        assert!(!pipes[i].passed_score);
        assert!(pipes[i].height_sprites >= 3 && pipes[i].height_sprites <= 9);
        i += 1;
    }
    assert!(pool_is_well_formed(&pipes, &opts));
    assert_eq!(game.game_state, GameState::Waiting);
    assert_eq!(game.score, 0);
    assert_eq!(game.speed_multiplier, 0);
    assert_eq!(player.y, -200);
    assert_eq!(player.delta_y, 0);
    assert_eq!(player.rotation, 0);
    assert!(!player.dead);
}

#[test]
fn reset_game_keeps_record_and_settings() {
    let opts = Options::standard();
    let mut game = fresh_game();
    game.player_stats.high_score = 21;
    game.settings.show_fps = true;
    game.before_pause = GameState::Finished;
    let mut player = player_setup(&opts);
    let mut pipes: Vec<PipeParent> = Vec::new();
    game.reset_game(&mut player, &mut pipes, &opts);
    assert_eq!(game.player_stats.high_score, 21);
    assert!(game.settings.show_fps);
    assert_eq!(game.before_pause, GameState::Finished);
    assert_eq!(pipes.len(), 0);
    assert_eq!(player.animation, PlayerAnimation::Idle);
}

#[test]
fn reset_game_of_a_standard_pool_tiles_the_screen() {
    let opts = Options::standard();
    let mut game = fresh_game();
    let mut player = player_setup(&opts);
    let mut pipes: Vec<PipeParent> = pipes_setup(&opts);
    game.reset_game(&mut player, &mut pipes, &opts);
    let mut i: usize = 0;
    while i < pipes.len() {
        assert_eq!(pipes[i].x, 280_000_000 + (i as i64) * 320_000_000);
        i += 1;
    }
}
