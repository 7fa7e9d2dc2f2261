//! The decisions and data of the Naphwiki timeline overlay: who is logged in
//! and how the name is shown, the settings menu, window tracking and its
//! persisted form, Windows startup, custom notification sounds and updates.
pub mod account;
pub mod menu;
pub mod shell;
pub mod sound;
pub mod startup;
pub mod text;
pub mod tracking;
pub mod updates;
pub mod window;
