//! Gameplay core of a side-scrolling arcade game: the game-state machine, the
//! player's motion and animation, and the pool of obstacle pairs that scroll,
//! recycle, score and collide.
//!
//! All quantities are whole numbers. Lengths, speeds, accelerations, angles
//! and time steps are counted in grains chosen by the caller: the length that
//! a speed covers in one time grain is `speed * dt`, with no rounding. The
//! stock tuning of [`options::Options::standard`] counts lengths in millionths
//! of a pixel, angles in millionths of a radian and time in milliseconds.
//!
//! Each frame, the caller hands the input and the time step to
//! [`player::player_system`] first and to [`pipes::pipes_system`] next, so
//! that the obstacle pairs score and collide against the player as moved in
//! that frame; the scenery of [`background`] follows.

pub mod android;
pub mod background;
pub mod game_controller;
pub mod hud;
pub mod options;
pub mod pipes;
pub mod player;
pub mod random;
pub mod settings;
pub mod units;
