//! Verified command logic of `kcm`, the container command-line tool.
use vstd::prelude::*;

pub mod prefs;
pub mod text;
pub mod validation;
pub mod failure;
pub mod interaction;
pub mod listing;
pub mod containers;
pub mod link_info;
pub mod destination;
pub mod fixtures;
pub mod dispatch;

verus! {

} // verus!
