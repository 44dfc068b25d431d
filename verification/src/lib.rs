//! Analysis of the native libraries that a build links against.
//!
//! Two sources are reconciled: the link declarations that build scripts emit
//! while a build runs, and the dependency table recorded inside each finished
//! executable.

pub mod binary;
pub mod descriptor;
pub mod event;
pub mod kind;
pub mod linked_libs;
pub mod metadata;
pub mod name_set;
pub mod names;
pub mod nesting;
pub mod report;
pub mod stream;
pub mod theorems;
