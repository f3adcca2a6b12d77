//! Spreadsheet-to-migration generation and paginated export decisions,
//! with contracts over sequence models of the produced text.
use vstd::prelude::*;

pub mod text;
pub mod cell;
pub mod schema;
pub mod inserts;
pub mod migration;
pub mod export;

verus! {

} // verus!
