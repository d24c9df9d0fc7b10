//! An in-memory log sink: records that pass a severity and target filter are
//! rendered to text lines and buffered so they can be inspected later.
//!
//! Two mutually exclusive flavors share one contract surface:
//! - `blocking`: one shared text buffer behind a verified reader-writer lock;
//!   writers and readers block on lock acquisition.
//! - `asynchronous`: an unbounded concurrent queue; producers never block.

pub mod asynchronous;
pub mod blocking;
pub mod filter;
pub mod format;
pub mod install;
pub mod laws;
pub mod pattern;
pub mod record;
pub mod severity;
pub mod sink;
