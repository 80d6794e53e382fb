//! Core of a markdown editor with a live preview: the document buffer, the
//! mapping from cursor row to preview scroll, the dispatch of user intents and
//! the protocol by which external lint and format tools are run.
//!
//! Nothing here touches the file system, a window or a subprocess. Whoever
//! embeds the library performs those effects and reports their outcome back.

pub mod color;
pub mod config;
pub mod document;
pub mod listing;
pub mod scroll;
pub mod shell;
pub mod text;
pub mod theme;
pub mod tool;
