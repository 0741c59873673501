//! Verified core of a chat-mockup rendering pipeline: structured message
//! descriptions are validated and assembled into a typed component tree,
//! which a renderer turns into nested markup with inline mention
//! substitution.

pub mod codeblock;
pub mod components;
pub mod discord;
pub mod embed;
pub mod generatable;
pub mod html;
pub mod invite;
pub mod mentions;
pub mod message;
pub mod preprocessor;
pub mod roles;
pub mod text;
pub mod tree;
pub mod yaml_parser;
