//! A tray radio: a short list of stations, one of which plays at a time.
//!
//! This library decides and proves; it runs nothing. The program around it
//! reads the station list, runs the player and puts up the tray.
//!
//! - `station`: what a station is and how the entries of a station list
//!   become a catalog;
//! - `document`: reading those entries out of a KDL document;
//! - `reserved`: telling apart the texts that the KDL parser cannot report
//!   on;
//! - `playback`: the state machine that says what to do on each event;
//! - `tray`: the radio itself, with the title and the menu that it shows;
//! - `player`: the command lines of the programs that the radio runs;
//! - `text`: numbers as text;
//! - `laws`: what holds of all of this whatever the input.

pub mod document;
pub mod laws;
pub mod playback;
pub mod player;
pub mod reserved;
pub mod station;
pub mod text;
pub mod tray;
