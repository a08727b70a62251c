//! The level registry: a total function from (mode, level) to an engine
//! handle, defined exactly over the valid ranges — five compression levels,
//! four decompression levels.

use crate::args::Mode;
use crate::args::level_in_range;
use vstd::prelude::*;

verus! {

/// Names one transformation engine: a stateless, pure text-to-text unit
/// bound to one (mode, level) pair. The engines themselves are fixed
/// process-wide instances of the external transformation library; a handle
/// only selects one of them.
#[derive(Clone, Copy, PartialEq, Eq, Structural, Debug)]
pub struct EngineHandle {
    pub mode: Mode,
    pub level: u8,
}

impl EngineHandle {
    /// The handle names an engine that exists: its level lies in the range
    /// of its mode.
    pub open spec fn wf(&self) -> bool {
        level_in_range(self.mode, self.level as nat)
    }
}

/// Looks an engine up. Total exactly over the valid ranges; querying
/// outside them is a programming error of the caller, not a runtime
/// condition the registry handles.
pub fn lookup(mode: Mode, level: u8) -> (e: EngineHandle)
    requires
        level_in_range(mode, level as nat),
    ensures
        e == (EngineHandle { mode, level }),
        e.wf(),
{
    EngineHandle { mode, level }
}

/// Looks an engine up with the bounds decided at run time: `None` exactly
/// when the level is out of range for the mode.
pub fn try_lookup(mode: Mode, level: u8) -> (r: Option<EngineHandle>)
    ensures
        level_in_range(mode, level as nat) ==> r == Some(EngineHandle { mode, level }),
        !level_in_range(mode, level as nat) ==> r is None,
{
    let hi: u8 = match mode {
        Mode::Compress => 5,
        Mode::Decompress => 4,
    };
    if 1 <= level && level <= hi {
        Some(lookup(mode, level))
    } else {
        None
    }
}

} // verus!
