//! Verified core of the Braess experiment tooling: the string and path logic that
//! builds experiment commands, the configuration lookups, the event-stream bookkeeping
//! that extracts travel times per path, and the line rewriting of event files.

pub mod text;
pub mod str_map;
pub mod int_map;
pub mod yaml;
pub mod bash_utils;
pub mod config;
pub mod modules;
pub mod activity_dummy_coordinates;
pub mod utils;
pub mod runners;
pub mod activity_time_replacement;
pub mod trip_tables;
pub mod event_extraction;
pub mod csv_column_renaming;
