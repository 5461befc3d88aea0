//! Verified core of a tool server that asks the user a structured question
//! through an external popup and turns the popup's reply into protocol content.

pub mod base64;
pub mod ids;
pub mod interaction;
pub mod laws;
pub mod parser;
pub mod response;
pub mod server;
pub mod types;
