use vstd::prelude::*;

verus! {

use crate::exec::ExecError;
use crate::fetch::FetchError;
use crate::mem64::MemError;

/// The single error union runtime faults flow upward in: memory faults,
/// fetch faults and execute faults, each kept verbatim.
#[derive(Clone, Copy, PartialEq, Eq, Structural, Debug)]
pub enum Error {
    Mem64(MemError),
    Fetch(FetchError),
    Exec(ExecError),
}

} // verus!
