//! The grammars, one for each family of commands.

pub mod flagword;
pub mod free;
pub mod net;
pub mod process;
pub mod ps;
pub mod readall;
pub mod substatus;
pub mod version;
pub mod worktime;
