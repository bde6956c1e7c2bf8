//! Small helpers shared by the commands: colored text fragments and
//! the interactive prompt theme.

pub mod dialoguer;
pub mod format;
