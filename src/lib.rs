//! Core of a terminal browser for SSH configuration entries: the records
//! and their parser, the search filter, the selection and scroll manager,
//! the modal state machine driven by decoded commands, and the terminal
//! restoration plan. Beside it stand a few small companions: BMP headers
//! as bytes, text reversal, and a checklist screen layout.

pub mod strings;
pub mod entry;
pub mod config;
pub mod filter;
pub mod highlight;
pub mod list_state;
pub mod mode;
pub mod browser;
pub mod terminal;
pub mod bitmap;
pub mod text;
pub mod grapheme;
pub mod checklist;

pub use browser::{BrowserState, Command, Key, LoopControl};
pub use entry::{SshConfigEntry, SshOption};
pub use list_state::{ListStateManager, NavigationDirection};
pub use mode::AppMode;
pub use terminal::{RestoreStep, TermStep, TerminalSession};
