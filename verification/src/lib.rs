//! Video playback inside a character-cell terminal.
//!
//! Raw RGB frames are turned into grids of coloured glyph cells, each grid is
//! diffed against the one shown before, and only the escape sequences needed
//! to bring the screen up to date are produced. A small scheduler decides
//! which queued frame is due and how long to wait for it.

pub mod ansi;
pub mod cell;
pub mod channel;
pub mod display;
pub mod fps_detector;
pub mod frame_data;
pub mod frame_manager;
pub mod layout;
pub mod pacing;
pub mod processor;
pub mod quantizer;
pub mod scheduler;
