//! Where the records are kept.

pub mod db;
