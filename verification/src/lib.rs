//! Guild models: permission resolution, member lookup and search, and the
//! small value types that describe a guild.

pub mod id;
pub mod permissions;
pub mod model;
pub mod seq_lib;
pub mod keyed;
pub mod error;
pub mod levels;
pub mod welcome;
pub mod guild;
pub mod access;
pub mod hierarchy;
pub mod text;
pub mod search;
pub mod records;
pub mod urls;
pub mod payload;
