//! A small verified text-processing library: a line-oriented search engine
//! with configurable case sensitivity, a composable unary-transform pipeline
//! with an invocation counter, and a few supporting data types.

pub mod chars;
pub mod config;
pub mod digits;
pub mod guess;
pub mod limit;
pub mod list;
pub mod rect;
pub mod search;
pub mod stage;

pub use config::Config;
pub use config::run_search;
pub use search::count;
pub use search::search;
pub use search::search_case_insensitive;
