pub mod kcommand;
pub mod logger;
pub mod ram_file;
pub mod simple_fs;
pub mod syscalls;
pub mod system;
pub mod task;
pub mod vga_buffer;
pub mod vga_textmode;
pub mod write_channel;

use vstd::prelude::*;

verus! {

/// Exit statuses understood by the emulator's debug-exit device.
#[derive(Debug, Clone, Copy, PartialEq, Eq, Structural)]
pub enum QemuExitCode {
    Success,
    Failed,
}

impl QemuExitCode {
    /// The value written to the debug-exit port for this status.
    pub fn code(&self) -> (c: u32)
        ensures
            c == (if self is Success { 0x10u32 } else { 0x11u32 }),
    {
        match self {
            QemuExitCode::Success => 0x10,
            QemuExitCode::Failed => 0x11,
        }
    }
}

} // verus!
