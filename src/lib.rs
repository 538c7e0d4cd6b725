//! Fixed file paths used by the modding agent, derived once from the
//! identifier of the application being modded.

pub mod paths;
