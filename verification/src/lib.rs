//! The decisions behind the interactive `new` command: which questions are
//! asked, in which order, and which `gtr` commands the answers lead to.

pub mod request;
pub mod prompt;
pub mod wizard;
