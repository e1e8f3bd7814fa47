//! Library for assembling a player's equipment report: it plans the
//! network and cache steps of a profile/item pipeline, interprets API
//! responses, enriches items against a local reference database, and
//! sorts the result for display.

use vstd::prelude::*;

pub mod db;
pub mod decode;
pub mod digits;
pub mod dtos;
pub mod enums;
pub mod errors;
pub mod executor;
pub mod headers;
pub mod jsonval;
pub mod pipeline;
pub mod profile;
pub mod sqlite;
pub mod state;
pub mod table;
pub mod text;
pub mod urls;

pub use errors::Error;

verus! {

} // verus!
