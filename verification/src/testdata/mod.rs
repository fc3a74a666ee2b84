//! The database snapshots that scenarios start from, and how they are made.

pub mod epoch2;
