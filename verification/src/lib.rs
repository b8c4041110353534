//! DbgAtlas: the verified decisions of a debugging, recording and reverse
//! engineering platform.

pub mod adapter;
pub mod cli;
pub mod dbgeng;
pub mod dbgeng_sys;
pub mod debug;
pub mod dispatch;
pub mod etw;
pub mod etw_sys;
pub mod ida;
pub mod ida_sys;
pub mod json;
pub mod laws;
pub mod mcp;
pub mod model;
pub mod native;
pub mod path;
pub mod recording;
pub mod rpc;
pub mod runtime;
pub mod text;
pub mod worker;
pub mod worker_protocol;
pub mod workspace;
pub mod xtask;
