//! The collections of the standard library, each with the operations it supports.
pub mod btreemap;
mod btreeset;
mod deque;
pub mod hashmap;
mod hashset;
mod vec;
