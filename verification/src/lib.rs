//! Dispatcher for connection descriptors: classifies a descriptor text,
//! plans the starter invocation, keeps the history of used descriptors and
//! drives the interactive session's state.

pub mod descriptor;
pub mod history;
pub mod launch;
pub mod pattern;
pub mod session;
pub mod text;
