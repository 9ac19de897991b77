//! Picks random archive problems: draws an identifier, builds the problem's address,
//! extracts a page's title, tracks the candidate while its fetch runs, and keeps the
//! table of saved problems with upsert semantics.
use vstd::prelude::*;

pub mod ids;
pub mod locator;
pub mod session;
pub mod store;
pub mod title;

verus! {

} // verus!
