//! A file-backed blog: Markdown posts with YAML front matter are turned into
//! `Post` records, one post at a time or as a date-ordered index.
//!
//! Reading the disk and serving pages is left to the caller. This crate holds
//! the rules in between, each with a contract that is proved.

pub mod date;
pub mod front_matter;
pub mod index;
pub mod laws;
pub mod loader;
pub mod markdown;
pub mod matter;
pub mod page;
pub mod post;
pub mod text;

pub use date::Date;
pub use front_matter::FrontMatter;
pub use loader::{load_and_process_all_posts, load_post, SourceFile};
pub use post::Post;
