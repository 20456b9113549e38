//! Menu, character-selection and in-game HUD logic of the Thetawave space shooter.
//!
//! Each module holds the decisions that the game's user interface makes from
//! frame to frame (which button is selected, which player joins, which frame of
//! an animation comes next, ...) as plain functions over plain values, with
//! contracts that Verus proves. The engine side (spawning entities, reading
//! input devices, timers, colors) drives these functions.

pub mod animation;
pub mod audio;
pub mod button;
pub mod carousel;
pub mod character_selection;
pub mod end_game;
pub mod game_ui;
pub mod hud;
pub mod input;
pub mod main_menu;
pub mod options;
pub mod player;
pub mod screens;
pub mod stats;
pub mod weapon;
