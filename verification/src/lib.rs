//! Flattens a tree of per-directory ignore files into one ordered list of
//! patterns, each rewritten so that it is anchored to the directory that owns
//! it, and prunes subtrees that the accumulated ignore rules already exclude.

pub mod absolute_ignore;
pub mod ignore_node;
pub mod job;
pub mod batch;
pub mod cli;
