//! Flashing firmware images through a debugger session: the chunk plan and
//! checksums of a bulk upload, the response grammar of the debugger's console,
//! the command catalogue with its collection policies, and the state machines
//! that drive a response collection, a session and an upload.

pub mod chunking;
pub mod collector;
pub mod command;
pub mod error;
pub mod parser;
pub mod session;
pub mod text;
pub mod uploader;
pub mod workspace;
