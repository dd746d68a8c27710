//! Host-side operations for a sandboxed script runtime: a table of open
//! resources addressed by integer handles, the permission and argument rules
//! of the file operations, the scheduling of the `add` operation, and the
//! lookup of operation names.
use vstd::prelude::*;

pub mod add;
pub mod dispatch;
pub mod error;
pub mod files;
pub mod resource_table;

verus! {

} // verus!
