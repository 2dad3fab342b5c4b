//! Translation of a rich-text CRDT document's change events into the Huly
//! delta format, and the registry of open documents.

pub mod attrs;
pub mod commands;
pub mod registry;
pub mod replay;
pub mod style_config;
pub mod translate;
