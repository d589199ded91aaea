//! Remote power and volume control: the platform command adapter, the volume
//! adapter, and the action dispatcher that both front ends (a desktop command
//! bridge and an HTTP route table) delegate to.
//!
//! The library decides everything: which external command realizes a logical
//! action on which operating system family, how volume levels are clamped and
//! adjusted, how mixer tool output is parsed, and how every result is
//! normalized into a uniform outcome. Launching processes, serving HTTP and
//! the desktop shell are left to a thin unverified layer around the library.

pub mod command;
pub mod dispatch;
pub mod mixer;
pub mod outcome;
pub mod parse;
pub mod platform;
pub mod text;
pub mod volume;
