//! A vision-grounded desktop automation loop: screenshot grids, prompt
//! assembly, the reply grammar, action plans and the loop's decisions.

pub mod text;
pub mod types;
pub mod prompts;
pub mod grammar;
pub mod parsers;
pub mod initialize;
pub mod action;
pub mod screen;
pub mod operations;
pub mod control;
