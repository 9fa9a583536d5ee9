//! The two command buffers of a window's render loop.

use vstd::prelude::*;

verus! {

/// How many command buffers a window allocates.
pub const COMMAND_BUFFER_COUNT: u32 = 2;

/// The command buffers of a window, by what they are used for.
#[derive(Clone, Copy, Debug, PartialEq, Eq, Structural)]
pub struct CommandBuffers {
    /// Records one-time work, such as bringing the depth image into use.
    pub setup: u64,
    /// Records the frame's draws, anew for every frame.
    pub draw: u64,
}

/// Of the command buffers that were allocated, the first is the setup
/// buffer and the second the draw buffer. `None` where fewer than
/// `COMMAND_BUFFER_COUNT` were allocated.
pub fn create_command_buffers(allocated: &Vec<u64>) -> (r: Option<CommandBuffers>)
    ensures
        allocated@.len() < COMMAND_BUFFER_COUNT ==> r.is_none(),
        allocated@.len() >= COMMAND_BUFFER_COUNT ==> r == Some(
            CommandBuffers { setup: allocated@[0], draw: allocated@[1] },
        ),
{
    if allocated.len() < 2 {
        None
    } else {
        Some(CommandBuffers { setup: allocated[0], draw: allocated[1] })
    }
}

} // verus!
