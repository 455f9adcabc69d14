//! A keeper of temporary voice rooms: it builds a room on request and removes
//! it when the last member has left.

use vstd::prelude::*;

pub mod checks;
pub mod command;
pub mod model;
pub mod name;
pub mod presence;
pub mod provision;
pub mod report;
pub mod text;
