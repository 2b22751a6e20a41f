//! The logic of `cargo generate`: reading template sources and their
//! configuration, turning placeholders into questions and checking the
//! answers, deciding which files of a template are rendered, copied or
//! left out, and preparing git clones, each with a contract proved by
//! Verus. Reading the disk, running git and prompting are left to the
//! program around the library.
use vstd::prelude::*;

pub mod text;
pub mod absolute_path;
pub mod args;
pub mod config;
pub mod disk;
pub mod app_config;
pub mod template_source;
pub mod git;
pub mod pattern;
pub mod project_variables;
pub mod interactive;
pub mod projectname;
pub mod include_exclude;
pub mod hooks;
pub mod generate;
pub mod fetch;
pub mod template;
pub mod template_variable_types;
pub mod authors;
pub mod ignore_me;
pub mod favorites;

verus! {

} // verus!
