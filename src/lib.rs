//! Core of a linguistic analysis gateway that runs spell checkers, grammar
//! checkers and hyphenators for many languages: the analyzer kinds, the
//! scanner of the model directories, the registries and the catalog of live
//! workers, the preference parser of grammar checkers, the worker protocols,
//! and the watcher's decisions that keep the catalog in step with the disk.

pub mod autonym;
pub mod catalog;
pub mod config;
pub mod error;
pub mod kind;
pub mod paths;
pub mod preferences;
pub mod registry;
pub mod scanner;
pub mod text;
pub mod watcher;
pub mod worker;
