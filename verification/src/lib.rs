//! The decisions of `zet`, a small tool that appends a time-stamped template to
//! a note under `<root>/0_inbox/` and then opens the note in an editor.
//!
//! Nothing here touches the file system, the terminal or a child process. The
//! library says what is to be done next, as an [`session::Action`], and is told
//! what came of it, as an [`session::Event`].

pub mod args;
pub mod name;
pub mod note;
pub mod session;
pub mod stamp;
