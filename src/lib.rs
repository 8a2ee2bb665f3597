//! Detection and rendering of the Perl prompt module: a directory probe that
//! gates a version lookup, the formatting of the tool's output, and the
//! assembly of the styled segments shown in the prompt line.
pub mod config;
pub mod context;
pub mod module;
pub mod perl;
pub mod probe;
pub mod version;
