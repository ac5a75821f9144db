//! Sysenix: the verified core of a local computer-use companion.
//!
//! The library holds the logic of the assistant: the text it sends to its
//! models, the protocol it speaks with its model worker, the checks it makes
//! on screenshots and clicks, and the decisions of its request loop.
//! Everything that touches the operating system lives in the program around it.
pub mod ai;
pub mod base64;
pub mod chat;
pub mod click;
pub mod cli;
pub mod json;
pub mod locales;
pub mod log;
pub mod prompt;
pub mod request;
pub mod screenshot;
pub mod text;
