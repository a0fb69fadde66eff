//! A file/directory copy engine: a path-resolution scanner that maps each
//! source entry to a destination path, an action pipeline of pre- and
//! post-copy behaviours driven by a three-way control signal, and two
//! interchangeable byte-copy strategies.

pub mod actions;
pub mod arg;
pub mod copier;
pub mod copiers;
pub mod driver;
pub mod error;
pub mod paths;
pub mod scanner;
pub mod sys;
