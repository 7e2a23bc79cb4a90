//! An in-process simulation of an interactive command shell rendered into a
//! text display: a shared-ownership tree that doubles as a virtual
//! filesystem, a message bus connecting a shell and a terminal buffer, and
//! the small programs the shell can launch.

pub mod files;
pub mod key_events;
pub mod path;
pub mod pos;
pub mod programs;
pub mod send_tree;
pub mod session;
pub mod shell;
pub mod style;
pub mod terminal;
pub mod text;
pub mod tree;
pub mod user;

pub use session::Session;
pub use session::create_input_event;
pub use session::create_interrupt;
