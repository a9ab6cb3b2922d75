//! Control of a traced process: attaching, stopping, stepping, resuming and
//! detaching, with every state change confirmed by a wait observation.

pub mod model;
pub mod machine;
mod sys;
pub mod control;
pub mod session;
pub mod launch;
