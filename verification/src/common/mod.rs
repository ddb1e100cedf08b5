//! Constants, enumerations, credentials and URL helpers shared by the adapter.

pub mod consts;
pub mod credential;
pub mod enums;
pub mod text;
pub mod urls;
