use vstd::prelude::*;

pub mod text;
pub mod versions;
pub mod paths;
pub mod command;
pub mod deps;
pub mod catalog;
pub mod download;
pub mod install;
pub mod vm;
pub mod system;
pub mod updates;
pub mod assets;
pub mod model;

verus! {
} // verus!
