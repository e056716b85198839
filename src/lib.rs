//! Menu front end of a small game: the application state machine that picks
//! the active screen, and the keyboard-driven focus navigation, highlight and
//! activation shared by its menu screens.
//!
//! `game::Game` holds everything one frame loop drives. Focus moves over a
//! `nav::FocusGraph`; each menu screen (`menu`) links its buttons into a
//! vertical cycle when built and despawns all its elements when left; a
//! `state::StateMachine` commits requested states only at the commit point
//! between frames.
pub mod area;
pub mod button;
pub mod game;
pub mod loading;
pub mod menu;
pub mod nav;
pub mod state;
