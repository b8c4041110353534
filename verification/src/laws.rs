//! What the library's functions return, told by what it means to a caller: each
//! law holds of every call of the functions that it names.

pub mod adapter;
pub mod cli;
pub mod copies;
pub mod dbgeng;
pub mod debug;
pub mod dispatch;
pub mod document;
pub mod etw;
pub mod ida;
pub mod mcp;
pub mod messages;
pub mod model;
pub mod path;
pub mod protocol;
pub mod recording;
pub mod runtime;
pub mod text;
pub mod worker;
pub mod workspace;
pub mod xtask;
