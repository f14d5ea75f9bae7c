//! Reader for EDB game-data containers: the header and its directory of record
//! arrays, the reference-pointer table, entity records, per-platform texture
//! decoding into RGBA8, and the assembly of maps with their zones and triggers.
//! Every offset and count taken from a file is checked against the buffer's
//! length before any byte behind it is read.
use vstd::prelude::*;

pub mod array;
pub mod cli;
pub mod cursor;
pub mod entity;
pub mod error;
pub mod header;
pub mod map;
pub mod pixel;
pub mod records;
pub mod texture;
pub mod texture_list;

verus! {

} // verus!
