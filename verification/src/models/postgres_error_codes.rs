//! The SQLSTATE codes that the data-access operations tell apart.

use vstd::prelude::*;

verus! {

/// The code with which the database refuses a row whose reference points at
/// no row, or the removal of a row that is still referred to.
pub const FOREIGN_KEY_VIOLATION: &'static str = "23503";

} // verus!
