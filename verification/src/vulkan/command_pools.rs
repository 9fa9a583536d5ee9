//! The command pool of a window's render loop.

use vstd::prelude::*;

verus! {

/// How the command pool is made.
#[derive(Clone, Copy, Debug, PartialEq, Eq, Structural)]
pub struct CommandPoolInfo {
    /// Each buffer of the pool can be reset by itself, as the reuse of a
    /// command buffer frame after frame demands.
    pub reset_command_buffer: bool,
    pub queue_family_index: u32,
}

/// The command pool for the queue family that the window's device was
/// made with; its buffers can be reset one by one.
pub fn create_command_pools(queue_family_index: u32) -> (r: CommandPoolInfo)
    ensures
        r == (CommandPoolInfo { reset_command_buffer: true, queue_family_index }),
{
    CommandPoolInfo { reset_command_buffer: true, queue_family_index }
}

} // verus!
