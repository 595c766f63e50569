//! An interactive launcher's core: a list of user-configured shortcuts is
//! filtered by literal substring match against typed queries, and an
//! unambiguous match resolves to a target path to open.

pub mod matcher;
pub mod prefix;
pub mod present;
pub mod resolver;
pub mod session;
pub mod shortcut;
pub mod text;
