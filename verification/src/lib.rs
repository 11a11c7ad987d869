//! Decision logic of the Devcade onboard backend: how the named pipes between
//! the supervisor and the onboard process are created and opened, how the
//! configuration falls back, and the record that describes one game.

pub mod channel;
pub mod disk;
pub mod env;
pub mod error;
pub mod fifo;
pub mod game;
pub mod path;
pub mod pipe;
pub mod protocol;

pub use env::{api_url, devcade_path, DevcadePath};
pub use error::{BackendError, IoFailure};
pub use fifo::{mkfifo, FifoState, FIFO_MODE};
pub use game::DevcadeGame;
pub use path::PipePath;
pub use pipe::{open_pipe, open_read_pipe, open_write_pipe, Endpoint, OpenState};
pub use protocol::{OpenMode, PipeAction, PipeEvent};
