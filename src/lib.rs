//! Engine of a terminal multiplexer: decoding of the byte stream that programs
//! in a pseudo-terminal emit, the decisions of the byte relay between that
//! pseudo-terminal and the real terminal, and the geometry of a session.
pub mod ansi;
pub mod pty;
pub mod relay;
pub mod tui;
pub mod util;
