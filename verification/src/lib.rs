//! Core of a small 2D action/adventure game: a stack-based state machine that
//! composes one persistent base game state with a stack of transient overlays
//! (pause screen, mini-games), and decides update routing, draw ordering and
//! pause/restore lifecycle bracketing for every frame.

pub mod controls;
pub mod error;
pub mod gamedata;
pub mod gamestate;
pub mod orchestrator;
pub mod popup;
pub mod overlay;
pub mod tooltip;
pub mod util;
pub mod world;
