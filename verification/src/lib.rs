//! The client side of the SFTP subsystem, without its transport.
//!
//! Every operation is decided here and performed elsewhere: a handle says
//! which request is to be issued, or that none may be, and the functions
//! that take a reply say what it means. Whoever holds the session issues
//! the requests, one at a time, under the session's lock.

pub mod error;
pub mod flags;
pub mod growth;
pub mod handle;
pub mod listing;
pub mod request;
pub mod stat;
pub mod subsystem;
pub mod teardown;

pub use error::Error;
pub use flags::{OpenFlags, OpenType, RenameFlags};
pub use growth::{Growth, Settled};
pub use handle::{File, SeekError, Seeking};
pub use listing::{Listing, Progress};
pub use request::{Attempt, Request};
pub use stat::{FileStat, FileType};
pub use subsystem::Sftp;
pub use teardown::TeardownStep;
