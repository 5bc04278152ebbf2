//! Exit codes and the messages of the usage errors.
use vstd::prelude::*;

verus! {

/// Successful execution.
pub const ESUCCESS: i32 = 0;

/// Invalid usage.
pub const EUSAGE: i32 = 1;

/// I/O error.
pub const EIO: i32 = 2;

/// Not enough arguments were provided.
pub const MARGS: &'static str = "missing argument(s)";

/// The file or directory cannot be found.
pub const MNOTFOUND: &'static str = "cannot be found";

/// A usage error where conflicting options are present.
pub const MCONFLICT: &'static str = "conflicting options";

} // verus!
