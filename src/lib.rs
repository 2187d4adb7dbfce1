//! Runtime core of an agent backend: a two-way message bus and a tool
//! engine (schemas, registry, file and shell tools) whose decisions and
//! result texts are verified.

pub mod text;
pub mod messages;
pub mod bus;
pub mod schema;
pub mod params;
pub mod paths;
pub mod filesystem;
pub mod shell;
pub mod registry;
