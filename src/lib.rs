use vstd::prelude::*;

pub mod cli;
pub mod error;
pub mod matcher;
pub mod text;
