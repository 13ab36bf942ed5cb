//! Names of the modes every input manager starts with or knows by default.

use vstd::prelude::*;

verus! {

pub const COMMON: &'static str = "common";

pub const INSERT: &'static str = "insert";

pub const NORMAL: &'static str = "normal";

pub const VISUAL: &'static str = "visual";

} // verus!
