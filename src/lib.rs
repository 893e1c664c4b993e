//! An inventory tracker's core: product records with optimistic-concurrency
//! updates, a repository of them, fuzzy search over their names, and the
//! heartbeat rules of a live snapshot channel.

pub mod product;
pub mod search;
pub mod repository;
pub mod session;
