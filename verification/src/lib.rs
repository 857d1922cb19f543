//! Drives a curses-style terminal program on behalf of an automated player.
//!
//! The program's output is a stream of bytes for a VT100 terminal. The crate
//! emulates that terminal and decides, turn by turn, what the player is
//! shown:
//!
//! - [`screen`] is the mathematical model: a [`Screen`] and what each
//!   operation makes of it.
//! - [`term_data`] is the emulated terminal, [`TermData`]: the grid of
//!   cells, the cursor, the scroll region and the modes, with every
//!   operation stated over the screen it stands for.
//! - [`mode`] holds the set of terminal modes and the codes that name them.
//! - [`dispatch`] is what the terminal does with printable characters,
//!   control bytes, and control and escape sequences. What it does not act
//!   on it notes, as a [`Note`], for whoever keeps a log.
//! - [`parser`] puts the terminal behind the VT parser of the crate `vte`.
//!   What the parser makes of the bytes is not proved here: it has a name,
//!   and the terminal is proved for whatever it dispatches.
//! - [`game`] is the turn loop, [`GameEnv`]: what a received chunk does to
//!   the terminal, when the player is shown the screen, and when the loop
//!   ends. The player is a [`Reactor`].
//! - [`setting`] describes the game to start, [`GameSetting`].
//! - [`laws`] states what holds whatever the game sends.

pub mod dispatch;
pub mod game;
pub mod laws;
pub mod mode;
pub mod parser;
pub mod screen;
pub mod setting;
pub mod term_data;

pub use game::{ActionResult, Driver, Event, Fatal, GameEnv, Handle, Reactor, Received, Shown};
pub use mode::{ClearMode, LineClearMode, ModeInt, TermMode};
pub use parser::{Action, ActionView, Recorder};
pub use screen::{Note, Screen};
pub use setting::{DrawType, GameSetting, LogInfo, Severity};
pub use term_data::{Cursor, LineRange, TermData};
