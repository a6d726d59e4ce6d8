//! The commands of the settings panel and of the game-over panel, as the
//! game controller takes them.

use vstd::prelude::*;
use crate::game_controller::{
    paused, resumed, GameController, GameSettings, GameState, PlayerStatistics, Storage,
    FULL_VOLUME,
};

verus! {

/// How much one press of a volume button changes a level, in percent.
pub const VOLUME_STEP: u32 = 5;

/// The buttons of the settings panel.
#[derive(PartialEq, Eq, Clone, Copy, Debug, Structural)]
pub enum SettingsButtonType {
    /// Turns the music down by one step.
    MusicVolumeMinus,
    /// Turns the music up by one step.
    MusicVolumePlus,
    /// Turns the sound effects down by one step.
    EffectsVolumeMinus,
    /// Turns the sound effects up by one step.
    EffectsVolumePlus,
    /// Shows or hides the frame rate.
    FPSShow,
    /// Closes the panel.
    Close,
    /// Forgets the record.
    Reset,
}

/// The level one step down, not below silence.
pub open spec fn quieter(level: u32) -> u32 {
    if level < VOLUME_STEP {
        0
    } else {
        (level - VOLUME_STEP) as u32
    }
}

/// The level one step up, not above full volume.
pub open spec fn louder(level: u32) -> u32 {
    if level + VOLUME_STEP > FULL_VOLUME {
        FULL_VOLUME
    } else {
        (level + VOLUME_STEP) as u32
    }
}

/// The game after the settings panel is shown or hidden: showing it
/// pauses the game, hiding it resumes the game.
pub open spec fn with_panel(game: GameController, now_visible: bool) -> GameController {
    if now_visible {
        paused(game)
    } else {
        resumed(game)
    }
}

/// The preferences after a press of `button`.
pub open spec fn settings_after(settings: GameSettings, button: SettingsButtonType) -> GameSettings {
    match button {
        SettingsButtonType::MusicVolumeMinus => GameSettings {
            music_vol_level: quieter(settings.music_vol_level),
            ..settings
        },
        SettingsButtonType::MusicVolumePlus => GameSettings {
            music_vol_level: louder(settings.music_vol_level),
            ..settings
        },
        SettingsButtonType::EffectsVolumeMinus => GameSettings {
            effects_vol_level: quieter(settings.effects_vol_level),
            ..settings
        },
        SettingsButtonType::EffectsVolumePlus => GameSettings {
            effects_vol_level: louder(settings.effects_vol_level),
            ..settings
        },
        SettingsButtonType::FPSShow => GameSettings { show_fps: !settings.show_fps, ..settings },
        SettingsButtonType::Close => settings,
        SettingsButtonType::Reset => settings,
    }
}

/// Whether the panel is visible after a press of `button`: only the close
/// button changes that.
pub open spec fn panel_after(visible: bool, button: SettingsButtonType) -> bool {
    if button == SettingsButtonType::Close {
        !visible
    } else {
        visible
    }
}

/// The game after a press of `button` on a panel that was `visible`.
pub open spec fn game_after_button(
    game: GameController,
    button: SettingsButtonType,
    visible: bool,
) -> GameController {
    let changed = GameController { settings: settings_after(game.settings, button), ..game };
    match button {
        SettingsButtonType::Close => with_panel(changed, !visible),
        SettingsButtonType::Reset => GameController {
            player_stats: PlayerStatistics { high_score: 0 },
            ..changed
        },
        _ => changed,
    }
}

/// The storage after a press of `button`: the preferences are always
/// written, and the record too where it was forgotten.
pub open spec fn store_after_button(
    store: Storage,
    game: GameController,
    button: SettingsButtonType,
) -> Storage {
    Storage {
        player_stats: if button == SettingsButtonType::Reset {
            Some(PlayerStatistics { high_score: 0 })
        } else {
            store.player_stats
        },
        game_settings: Some(settings_after(game.settings, button)),
    }
}

fn turn_down(level: u32) -> (r: u32)
    ensures
        r == quieter(level),
{
    if level < VOLUME_STEP {
        0
    } else {
        level - VOLUME_STEP
    }
}

fn turn_up(level: u32) -> (r: u32)
    ensures
        r == louder(level),
{
    if level > FULL_VOLUME - VOLUME_STEP {
        FULL_VOLUME
    } else {
        level + VOLUME_STEP
    }
}

impl GameController {
    /// Shows the settings panel where it was hidden, and hides it where it
    /// was shown: the game is paused while the panel is up. Tells whether
    /// the panel is visible now.
    pub fn toggle_settings(&mut self, visible: bool) -> (now_visible: bool)
        ensures
            now_visible == !visible,
            *final(self) == with_panel(*old(self), !visible),
    {
        if !visible {
            self.pause_game();
        } else {
            self.resume_game();
        }
        !visible
    }

    /// The escape key: toggles the settings panel, unless the run is
    /// finished. Tells whether the panel is visible now.
    pub fn escape_pressed(&mut self, visible: bool) -> (now_visible: bool)
        ensures
            old(self).game_state == GameState::Finished ==> now_visible == visible && *final(self)
                == *old(self),
            old(self).game_state != GameState::Finished ==> now_visible == !visible && *final(self)
                == with_panel(*old(self), !visible),
    {
        if self.game_state != GameState::Finished {
            self.toggle_settings(visible)
        } else {
            visible
        }
    }

    /// A press of a button of the settings panel: the preference or record
    /// changes as the button says, and what was pressed for is written to the
    /// storage. Tells whether the panel is visible now.
    pub fn settings_button_pressed(
        &mut self,
        store: &mut Storage,
        button: SettingsButtonType,
        visible: bool,
    ) -> (now_visible: bool)
        ensures
            now_visible == panel_after(visible, button),
            *final(self) == game_after_button(*old(self), button, visible),
            *final(store) == store_after_button(*old(store), *old(self), button),
            old(self).settings.valid() ==> final(self).settings.valid(),
    {
        let mut now_visible: bool = visible;
        match button {
            SettingsButtonType::MusicVolumeMinus => {
                self.settings.music_vol_level = turn_down(self.settings.music_vol_level);
            },
            SettingsButtonType::MusicVolumePlus => {
                self.settings.music_vol_level = turn_up(self.settings.music_vol_level);
            },
            SettingsButtonType::EffectsVolumeMinus => {
                self.settings.effects_vol_level = turn_down(self.settings.effects_vol_level);
            },
            SettingsButtonType::EffectsVolumePlus => {
                self.settings.effects_vol_level = turn_up(self.settings.effects_vol_level);
            },
            SettingsButtonType::FPSShow => {
                self.settings.show_fps = !self.settings.show_fps;
            },
            SettingsButtonType::Close => {
                now_visible = self.toggle_settings(visible);
            },
            SettingsButtonType::Reset => {
                self.player_stats.high_score = 0;
                self.save_player_stats(store);
            },
        }
        self.save_settings(store);
        now_visible
    }

    /// The retry button of the game-over panel: asks for a new run.
    pub fn retry_pressed(&mut self)
        ensures
            *final(self) == (GameController { game_state: GameState::Restart, ..*old(self) }),
    {
        self.game_state = GameState::Restart;
    }
}

} // verus!
