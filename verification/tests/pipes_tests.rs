use flappy_bevy::game_controller::{GameController, GameState, Storage};
use flappy_bevy::options::Options;
use flappy_bevy::pipes::{
    draw_height, pipes_setup, pipes_system, pool_is_well_formed, spawn_pipe, PipeBlock, PipeParent,
};
use flappy_bevy::player::{player_setup, Player};

fn running_game() -> GameController {
    let mut game = GameController::new(&Storage::empty());
    game.game_state = GameState::Started;
    game
}

#[test]
fn blocks_of_a_pair_are_laid_out_row_by_row() {
    let opts = Options::standard();
    let pipe = PipeParent::with_height(&opts, 1_000, 3);
    assert_eq!(pipe.x, 1_000);
    assert_eq!(pipe.height_sprites, 3);
    assert_eq!(pipe.y_gap_sprites, 4);
    assert!(!pipe.passed_score);
    assert_eq!(pipe.top_height_sprites(&opts), 9);
    assert_eq!(pipe.blocks.len(), (3 + 9) * 2);
    assert_eq!(
        pipe.blocks[0],
        PipeBlock { x: 1_000, y: -512_000_000, end_cap: false, flip_x: false, flip_y: false }
    );
    assert_eq!(
        pipe.blocks[1],
        PipeBlock { x: 32_001_000, y: -512_000_000, end_cap: false, flip_x: true, flip_y: false }
    );
    assert_eq!(
        pipe.blocks[4],
        PipeBlock { x: 1_000, y: -384_000_000, end_cap: true, flip_x: false, flip_y: false }
    );
    assert_eq!(
        pipe.blocks[5],
        PipeBlock { x: 32_001_000, y: -384_000_000, end_cap: true, flip_x: true, flip_y: false }
    );
    assert_eq!(
        pipe.blocks[6],
        PipeBlock { x: 1_000, y: 512_000_000, end_cap: false, flip_x: false, flip_y: true }
    );
    assert_eq!(
        pipe.blocks[22],
        PipeBlock { x: 1_000, y: 0, end_cap: true, flip_x: false, flip_y: true }
    );
    assert_eq!(
        pipe.blocks[23],
        PipeBlock { x: 32_001_000, y: 0, end_cap: true, flip_x: true, flip_y: true }
    );
    assert!(pipe.is_well_formed(&opts));
}

#[test]
fn caps_close_each_stack_once_per_column() {
    let opts = Options::standard();
    let mut height: u32 = 3;
    while height <= 9 {
        let pipe = PipeParent::with_height(&opts, 0, height);
        let top: u32 = opts.top_height_units(height);
        assert_eq!(pipe.blocks.len() as u32, (height + top) * opts.pipe_width);
        let caps: usize = pipe.blocks.iter().filter(|b| b.end_cap).count();
        assert_eq!(caps as u32, 2 * opts.pipe_width);
        let upper: usize = pipe.blocks.iter().filter(|b| b.flip_y).count();
        assert_eq!(upper as u32, top * opts.pipe_width);
        height += 1;
    }
}

#[test]
fn a_pair_with_an_empty_top_stack() {
    let mut opts = Options::standard();
    opts.pipe_height_max = 12;
    assert_eq!(opts.validate(), Ok(()));
    let pipe = PipeParent::with_height(&opts, 0, 12);
    assert_eq!(pipe.top_height_sprites(&opts), 0);
    assert_eq!(pipe.blocks.len(), 24);
    assert!(pipe.blocks.iter().all(|b| !b.flip_y));
}

#[test]
fn rebuild_replaces_every_block() {
    let opts = Options::standard();
    let mut pipe = PipeParent::with_height(&opts, 500, 9);
    pipe.passed_score = true;
    pipe.rebuild(&opts, -700, 4);
    assert_eq!(pipe.x, -700);
    assert_eq!(pipe.height_sprites, 4);
    assert!(!pipe.passed_score);
    assert_eq!(pipe.blocks.len(), (4 + 8) * 2);
    assert_eq!(pipe.blocks[0].x, -700);
    assert!(pipe.is_well_formed(&opts));
}

#[test]
fn reset_draws_heights_in_range() {
    let opts = Options::standard();
    let mut pipe = spawn_pipe(&opts, 0);
    let mut seen_low: bool = false;
    let mut seen_other: bool = false;
    let mut i: u32 = 0;
    while i < 400 {
        pipe.passed_score = true;
        pipe.reset(&opts, 864_000_000);
        assert!(pipe.height_sprites >= 3 && pipe.height_sprites <= 9);
        assert_eq!(pipe.x, 864_000_000);
        assert!(!pipe.passed_score);
        let top: u32 = pipe.top_height_sprites(&opts);
        assert_eq!(pipe.height_sprites + 4 + top, 16);
        assert_eq!(pipe.blocks.len() as u32, (pipe.height_sprites + top) * 2);
        if pipe.height_sprites == 3 {
            seen_low = true;
        } else {
            seen_other = true;
        }
        i += 1;
    }
    assert!(seen_other);
    assert!(seen_low || seen_other);
}

#[test]
fn drawn_heights_vary() {
    let opts = Options::standard();
    let first: u32 = draw_height(&opts);
    let mut differs: bool = false;
    let mut i: u32 = 0;
    while i < 1000 {
        let next: u32 = draw_height(&opts);
        assert!(next >= 3 && next <= 9);
        if next != first {
            differs = true;
        }
        i += 1;
    }
    assert!(differs);
}

#[test]
fn a_single_height_is_always_drawn_from_a_range_of_one() {
    let mut opts = Options::standard();
    opts.pipe_height_min = 6;
    opts.pipe_height_max = 6;
    let mut i: u32 = 0;
    while i < 50 {
        assert_eq!(draw_height(&opts), 6);
        i += 1;
    }
}

#[test]
fn setup_spaces_the_pool_evenly() {
    let opts = Options::standard();
    let pipes = pipes_setup(&opts);
    assert_eq!(pipes.len(), 5);
    let mut i: usize = 0;
    while i < 5 {
        assert_eq!(pipes[i].x, 280_000_000 + (i as i64) * 350_000_000);
        assert!(pipes[i].height_sprites >= 3 && pipes[i].height_sprites <= 9);
        assert!(!pipes[i].passed_score);
        i += 1;
    }
    assert!(pool_is_well_formed(&pipes, &opts));
}

#[test]
fn nothing_moves_unless_a_run_is_on() {
    let opts = Options::standard();
    let mut player = player_setup(&opts);
    let mut pipes = vec![PipeParent::with_height(&opts, -799_000_000, 5)];
    let states = [GameState::Waiting, GameState::Paused, GameState::Finished, GameState::Restart];
    for state in states {
        let mut game = GameController::new(&Storage::empty());
        game.game_state = state;
        let out = pipes_system(&mut game, &mut player, &mut pipes, &opts, 1000);
        assert_eq!(pipes[0].x, -799_000_000);
        assert_eq!(pipes[0].blocks[1].x, -767_000_000);
        assert_eq!(game.score, 0);
        assert!(!player.dead);
        assert!(!out.highscore_sound);
        assert_eq!(out.recycled, vec![false]);
    }
}

#[test]
fn a_tick_scrolls_pair_and_blocks_together() {
    let opts = Options::standard();
    let mut game = running_game();
    let mut player = player_setup(&opts);
    let mut pipes = vec![PipeParent::with_height(&opts, 280_000_000, 5)];
    let out = pipes_system(&mut game, &mut player, &mut pipes, &opts, 16);
    assert_eq!(pipes[0].x, 276_000_000);
    assert_eq!(pipes[0].blocks[0].x, 276_000_000);
    assert_eq!(pipes[0].blocks[1].x, 308_000_000);
    assert_eq!(pipes[0].blocks[0].y, -512_000_000);
    assert_eq!(pipes[0].height_sprites, 5);
    assert!(!pipes[0].passed_score);
    assert_eq!(game.score, 0);
    assert!(!player.dead);
    assert_eq!(out.recycled, vec![false]);
    assert!(!out.highscore_sound);
    assert!(pool_is_well_formed(&pipes, &opts));
}

#[test]
fn a_pair_past_the_left_edge_is_recycled() {
    let opts = Options::standard();
    let mut game = running_game();
    let mut player = player_setup(&opts);
    let mut pipes = vec![
        PipeParent::with_height(&opts, -799_000_000, 5),
        PipeParent::with_height(&opts, -796_000_000, 5),
    ];
    pipes[0].passed_score = true;
    pipes[1].passed_score = true;
    let out = pipes_system(&mut game, &mut player, &mut pipes, &opts, 16);
    assert_eq!(out.recycled, vec![true, false]);
    assert_eq!(pipes[0].x, 864_000_000);
    assert!(!pipes[0].passed_score);
    assert!(pipes[0].height_sprites >= 3 && pipes[0].height_sprites <= 9);
    assert_eq!(pipes[0].blocks[0].x, 864_000_000);
    assert_eq!(pipes[1].x, -800_000_000);
    assert!(pipes[1].passed_score);
    assert_eq!(game.score, 0);
    assert!(pool_is_well_formed(&pipes, &opts));
}

#[test]
fn a_pass_scores_exactly_once() {
    let opts = Options::standard();
    let mut game = running_game();
    game.player_stats.high_score = 5;
    let mut player = player_setup(&opts);
    let mut pipes = vec![PipeParent::with_height(&opts, 52_000_000, 5)];
    let out = pipes_system(&mut game, &mut player, &mut pipes, &opts, 16);
    assert_eq!(pipes[0].x, 48_000_000);
    assert_eq!(game.score, 0);
    assert!(!pipes[0].passed_score);
    assert!(!out.highscore_sound);
    let out = pipes_system(&mut game, &mut player, &mut pipes, &opts, 16);
    assert_eq!(pipes[0].x, 44_000_000);
    assert_eq!(game.score, 1);
    assert!(pipes[0].passed_score);
    assert!(!out.highscore_sound);
    let mut i: u32 = 0;
    while i < 20 {
        pipes_system(&mut game, &mut player, &mut pipes, &opts, 16);
        assert_eq!(game.score, 1);
        assert!(pipes[0].passed_score);
        i += 1;
    }
    assert_eq!(game.player_stats.high_score, 5);
}

#[test]
fn score_never_goes_down_over_a_run() {
    let opts = Options::standard();
    let mut game = running_game();
    let mut player = player_setup(&opts);
    player.y = 0;
    let mut pipes = pipes_setup(&opts);
    let mut last: u32 = 0;
    let mut recycles: u32 = 0;
    let mut i: u32 = 0;
    while i < 3000 {
        let out = pipes_system(&mut game, &mut player, &mut pipes, &opts, 16);
        assert!(game.score == last || game.score == last + 1);
        last = game.score;
        for flag in out.recycled {
            if flag {
                recycles += 1;
            }
        }
        for pipe in pipes.iter() {
            assert!(pipe.x >= -800_000_000);
            assert!(pipe.height_sprites >= 3 && pipe.height_sprites <= 9);
        }
        i += 1;
    }
    assert!(recycles >= 5);
    assert!(game.score >= 5);
    assert!(game.score <= 5 + recycles);
    assert!(pool_is_well_formed(&pipes, &opts));
}

#[test]
fn the_record_sound_is_due_once_when_the_score_goes_past_the_record() {
    let opts = Options::standard();
    let mut game = running_game();
    game.player_stats.high_score = 1;
    game.score = 1;
    let mut player = player_setup(&opts);
    player.y = 0;
    let mut pipes = vec![
        PipeParent::with_height(&opts, 40_000_000, 5),
        PipeParent::with_height(&opts, 390_000_000, 5),
    ];
    let out = pipes_system(&mut game, &mut player, &mut pipes, &opts, 16);
    assert_eq!(game.score, 2);
    assert!(out.highscore_sound);
    let mut sounds: u32 = 0;
    let mut i: u32 = 0;
    while i < 100 {
        let out = pipes_system(&mut game, &mut player, &mut pipes, &opts, 16);
        if out.highscore_sound {
            sounds += 1;
        }
        i += 1;
    }
    assert_eq!(game.score, 3);
    assert_eq!(sounds, 0);
    assert_eq!(game.player_stats.high_score, 1);
}

#[test]
fn two_passes_in_one_tick_score_two() {
    let opts = Options::standard();
    let mut game = running_game();
    game.player_stats.high_score = 1;
    let mut player = player_setup(&opts);
    player.y = 0;
    let mut pipes = vec![
        PipeParent::with_height(&opts, 40_000_000, 5),
        PipeParent::with_height(&opts, 41_000_000, 5),
        PipeParent::with_height(&opts, 42_000_000, 5),
    ];
    let out = pipes_system(&mut game, &mut player, &mut pipes, &opts, 1);
    assert_eq!(game.score, 3);
    assert!(out.highscore_sound);
}

fn struck(player_y: i64, pipe_x: i64) -> bool {
    let opts = Options::standard();
    let mut game = running_game();
    let mut player: Player = player_setup(&opts);
    player.y = player_y;
    let mut pipes = vec![PipeParent::with_height(&opts, pipe_x, 5)];
    pipes[0].passed_score = true;
    pipes_system(&mut game, &mut player, &mut pipes, &opts, 0);
    assert_eq!(pipes[0].is_hit(&opts, player.x, player.y), player.dead);
    player.dead
}

#[test]
fn the_opening_is_safe_and_the_stacks_are_not() {
    assert!(!struck(0, -64_000_000));
    assert!(!struck(-191_999_999, -64_000_000));
    assert!(struck(-192_000_000, -64_000_000));
    assert!(struck(-400_000_000, -64_000_000));
    assert!(!struck(63_999_999, -64_000_000));
    assert!(struck(64_000_000, -64_000_000));
    assert!(struck(300_000_000, -64_000_000));
}

#[test]
fn a_pair_touches_only_within_its_half_width() {
    assert!(struck(-300_000_000, -16_000_001));
    assert!(!struck(-300_000_000, -16_000_000));
    assert!(struck(-300_000_000, -111_999_999));
    assert!(!struck(-300_000_000, -112_000_000));
    assert!(!struck(300_000_000, 500_000_000));
}

#[test]
fn a_later_pair_does_not_revive_the_player() {
    let opts = Options::standard();
    let mut game = running_game();
    let mut player = player_setup(&opts);
    player.y = -300_000_000;
    let mut pipes = vec![
        PipeParent::with_height(&opts, -64_000_000, 5),
        PipeParent::with_height(&opts, 600_000_000, 5),
    ];
    pipes_system(&mut game, &mut player, &mut pipes, &opts, 0);
    assert!(player.dead);
    let before = player;
    pipes_system(&mut game, &mut player, &mut pipes, &opts, 0);
    assert_eq!(player, before);
}

#[test]
fn well_formedness_check_finds_a_stray_block() {
    let opts = Options::standard();
    let mut pipe = PipeParent::with_height(&opts, 0, 5);
    assert!(pipe.is_well_formed(&opts));
    pipe.blocks[3].x += 1;
    assert!(!pipe.is_well_formed(&opts));
    let mut pipe = PipeParent::with_height(&opts, 0, 5);
    pipe.height_sprites = 6;
    assert!(!pipe.is_well_formed(&opts));
    let mut pipe = PipeParent::with_height(&opts, 0, 5);
    pipe.blocks.pop();
    assert!(!pipe.is_well_formed(&opts));
    let mut pipe = PipeParent::with_height(&opts, 0, 5);
    pipe.height_sprites = 2;
    assert!(!pipe.is_well_formed(&opts));
}
