//! A small task manager: each task pairs a terminal-multiplexer session with a
//! version-control branch of the same name. This library holds the verified
//! core: the registry of task names, the lifecycle controller that decides
//! which multiplexer and version-control operations to issue and in what
//! order, the probe policy for the ambient "inside a session" check, and the
//! error taxonomy. The thin I/O shell around it performs the operations the
//! controller asks for and feeds their results back.

pub mod codec;
pub mod controller;
pub mod errors;
pub mod probe;
pub mod registry;
