//! The decisions behind `storyboard`, a command line that turns one video into
//! a storyboard brief: what to check, what to send, what to make of each reply
//! and what to do next. The caller performs the actions; the library never
//! touches a file, a clock or the network itself.

pub mod client;
pub mod flow;
pub mod http;
pub mod input;
pub mod json;
pub mod laws;
pub mod parts;
pub mod paths;
pub mod report;
pub mod session;
pub mod text;
pub mod upload;
