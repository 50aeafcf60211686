use vstd::prelude::*;

pub mod chip;
pub mod display;
pub mod instruction;
pub mod keyboard;
pub mod keymap;
pub mod memory;
pub mod theorems;

verus! {

} // verus!
