//! Leaving the emulator through its debug-exit device.

use vstd::prelude::*;
use crate::port::PortWrite32;

verus! {

/// Port of the emulator's debug-exit device.
pub const EXIT_PORT: u16 = 0xf4;

/// What to report to the emulator on exit.
#[derive(Clone, Copy, Debug, PartialEq, Eq, Structural)]
pub enum QemuExitCode {
    Success,
    Failed,
}

impl QemuExitCode {
    /// The word the debug-exit device expects for this outcome.
    pub open spec fn spec_code(self) -> u32 {
        match self {
            QemuExitCode::Success => 0x10,
            QemuExitCode::Failed => 0x11,
        }
    }

    #[verifier::when_used_as_spec(spec_code)]
    pub fn code(self) -> (c: u32)
        ensures
            c == self.spec_code(),
    {
        match self {
            QemuExitCode::Success => 0x10,
            QemuExitCode::Failed => 0x11,
        }
    }
}

/// The port write that makes the emulator exit with `exit_code`.
pub fn exit_qemu(exit_code: QemuExitCode) -> (w: PortWrite32)
    ensures
        w.port == EXIT_PORT,
        w.value == exit_code.spec_code(),
{
    PortWrite32 { port: EXIT_PORT, value: exit_code.code() }
}

/// The port write that makes the emulator exit reporting success.
pub fn exit_qemu_success() -> (w: PortWrite32)
    ensures
        w == (PortWrite32 { port: 0xf4, value: 0x10 }),
{
    exit_qemu(QemuExitCode::Success)
}

} // verus!
