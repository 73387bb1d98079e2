//! The artifact shaped for display: a tree of groups, subgroups and
//! leaves, and the state of the view that shows it.

pub mod tree;
pub mod state;
pub mod rows;
