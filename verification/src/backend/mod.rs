//! The engines that the library drives.

pub mod sqlite;
