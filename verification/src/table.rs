//! The table of commands that the search fills and the interface shows.

use vstd::prelude::*;

verus! {

/// The commands that are present in the application: the bridge between
/// the search, which will update it with the commands it finds, and the
/// interface, which renders it. It holds nothing yet.
pub struct Table {}

} // verus!
