//! Session management for a single interactive shell running on a
//! pseudo-terminal: the decisions taken when a session is created, written
//! to, resized, and drained, stated and proved over plain values.
//!
//! The operating-system side (opening the terminal pair, spawning the shell,
//! moving bytes) is reached through the capability traits of [`transport`];
//! every function here is verified for every implementation of them, and
//! the library keeps a ghost record of what it hands to each.

pub mod error;
pub mod geometry;
pub mod launch;
pub mod read_loop;
pub mod session;
pub mod transport;

pub use error::PtyError;
pub use geometry::{default_shell, initial_size, TermSize, INITIAL_COLS, INITIAL_ROWS};
pub use launch::{Launcher, OpenedSession};
pub use read_loop::{after_read, ReadStep, READ_CHUNK_LEN};
pub use session::{
    install, resize_outcome, resize_pty, write_outcome, write_to_pty, Delivery, SessionMaster,
    SessionWriter,
};
pub use transport::{PtyBackend, PtyMaster, PtyWriter};
