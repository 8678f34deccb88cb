use vstd::prelude::*;

pub mod cli;
pub mod http;
pub mod install;
pub mod media;
pub mod number;
pub mod paths;
pub mod setup;
pub mod text;
