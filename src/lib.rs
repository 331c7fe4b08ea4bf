//! A store for named resources: each resource type owns one directory that
//! holds two text files, the content and its metadata.
//!
//! The library decides, step by step, what a save or a load asks of the
//! outside world (locate a directory, write a file, read a file) and what it
//! returns once the answers are in. Whoever drives it performs the requests.
pub mod layout;
pub mod request;
pub mod save;
pub mod load;
pub mod disk;
