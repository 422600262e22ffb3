//! Core of a terminal-rendered arcade game: a fixed-rate simulation drives a
//! menu/playing/paused/won/lost state machine, entities with timer-driven
//! lifecycles draw glyphs into fixed-size frames, and a diff renderer emits
//! draw operations only for the cells that changed since the previous frame.

pub mod ansi;
pub mod frame;
pub mod game;
pub mod input;
pub mod pipeline;
pub mod render;
pub mod score;
pub mod screens;
pub mod shot;
pub mod timer;

pub use frame::Frame;
pub use score::ScoreBoard;
pub use shot::Shot;
pub use timer::Timer;
