use vstd::prelude::*;

pub mod config;
pub mod cursor;
pub mod font;
pub mod keys;
pub mod layout;
pub mod memory;
pub mod typewriter;

verus! {

} // verus!
