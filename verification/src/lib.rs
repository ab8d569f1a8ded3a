//! Text statistics: lines, words, characters and bytes of a text, and the
//! one-line report that shows a chosen subset of them.

pub mod counter;
pub mod decimal;
pub mod matches;
pub mod options;
pub mod report;
pub mod segment;

pub use counter::{get_file_stats, FileStats};
pub use options::{get_options, options_from_flags, select_options};
pub use report::format_stats;
