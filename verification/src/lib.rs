//! Resolution of run profiles for a coverage tool: the settings given on the
//! command line and those of an optional settings file are combined into one
//! or more profiles, each of which can say whether a source file is excluded
//! from the results.
pub mod args;
pub mod config;
pub mod document;
pub mod exclusion;
pub mod parse;
pub mod path;
pub mod pattern;
pub mod strings;
pub mod types;
