//! Capture of an authorization-code redirect: the decisions that sit between
//! an embedded browser and the process that waits for the code.

pub mod navigation;
pub mod output;
pub mod session;
pub mod visibility;
pub mod lifecycle;
