//! Looks up a hanja character in an online dictionary: resolves the search
//! page to an entry, reads the entry's pronunciation and supplementary usage
//! examples, and renders them as short chat text.
use vstd::prelude::*;

pub mod describe;
pub mod format;
pub mod lookup;
pub mod markup;
pub mod model;
pub mod search;
pub mod text;

verus! {

} // verus!
