//! A registry of the rooms and devices of a house, with textual status reports.

pub mod device;
pub mod home;
pub mod name_set;
pub mod provider;
pub mod text;
