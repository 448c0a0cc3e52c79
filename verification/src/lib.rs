//! A terminal music player, without its terminal and its audio device.
//!
//! At the heart is a layout engine for a grid of character cells (`ui`,
//! `region`, `instruction`, `backend`, `geometry`, `trace`): named rectangular
//! regions are declared on the grid, text is written into them, and once per
//! frame the queued draw instructions are replayed through a backend of three
//! operations. `laws` states what holds of the engine whatever is declared
//! and written.
//!
//! Around it stands what the player keeps and decides: its screen (`layout`,
//! `screen`, `sliding`, `text`), its catalogue (`songs`), its keys and mouse
//! (`keys`, `controls`, `mouse`), its clock (`timing`) and what it tells a presence
//! service (`presence`).

pub mod backend;
pub mod controls;
pub mod geometry;
pub mod instruction;
pub mod keys;
pub mod laws;
pub mod layout;
pub mod mouse;
pub mod presence;
pub mod region;
pub mod screen;
pub mod sliding;
pub mod songs;
pub mod text;
pub mod timing;
pub mod trace;
pub mod ui;
