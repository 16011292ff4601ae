use vstd::prelude::*;

verus! {

/// A form of process termination that a numeric exit code cannot represent
/// (on POSIX platforms: termination by a signal), identified by a raw
/// platform-specific value.
#[derive(Debug, Clone, Copy, PartialEq, Eq, Structural)]
pub struct OpaqueOsExitStatus {
    /// The raw platform-specific value behind this status.
    pub raw: i32,
}

impl OpaqueOsExitStatus {
    /// A fixed platform-defined placeholder value, usable wherever an
    /// expectation needs to compare against "terminated in a non-code way".
    pub fn target_specific_default() -> (r: OpaqueOsExitStatus)
        ensures
            r == (OpaqueOsExitStatus { raw: 1 }),
    {
        OpaqueOsExitStatus { raw: 1 }
    }

    /// Wraps a raw platform-specific status value.
    pub fn from_raw(raw: i32) -> (r: OpaqueOsExitStatus)
        ensures
            r == (OpaqueOsExitStatus { raw }),
    {
        OpaqueOsExitStatus { raw }
    }
}

/// Platform-neutral description of how a process terminated: either a numeric
/// exit code (kept wider than one byte, since some platforms report wide
/// codes) or an opaque OS-specific status for terminations that no code can
/// express.
#[derive(Debug, Clone, Copy, PartialEq, Eq, Structural)]
pub enum ExitStatus {
    /// The process exited on its own with the given exit code.
    Code(i64),
    /// The process was terminated in a way that carries no exit code.
    OsSpecific(OpaqueOsExitStatus),
}

impl ExitStatus {
    /// What counts as success: exactly the numeric exit code zero.
    /// An opaque OS-specific status is never successful.
    pub open spec fn is_successful(self) -> bool {
        self == ExitStatus::Code(0)
    }

    /// Returns true iff this status is the numeric exit code zero.
    pub fn successful(&self) -> (r: bool)
        ensures
            r == self.is_successful(),
    {
        match self {
            ExitStatus::Code(code) => *code == 0,
            ExitStatus::OsSpecific(_) => false,
        }
    }

    /// The numeric exit code, if this status carries one.
    pub fn code(&self) -> (r: Option<i64>)
        ensures
            r == (match *self {
                ExitStatus::Code(code) => Some(code),
                ExitStatus::OsSpecific(_) => None::<i64>,
            }),
    {
        match self {
            ExitStatus::Code(code) => Some(*code),
            ExitStatus::OsSpecific(_) => None,
        }
    }
}

impl Default for ExitStatus {
    /// The default status is the successful exit code zero.
    fn default() -> (r: Self)
        ensures
            r == ExitStatus::Code(0),
    {
        ExitStatus::Code(0)
    }
}

impl From<i32> for ExitStatus {
    /// Lifts a platform-native numeric exit code into the neutral form.
    fn from(code: i32) -> (r: Self)
        ensures
            r == ExitStatus::Code(code as i64),
    {
        ExitStatus::Code(code as i64)
    }
}

impl vstd::std_specs::convert::FromSpecImpl<i32> for ExitStatus {
    open spec fn obeys_from_spec() -> bool {
        true
    }

    open spec fn from_spec(code: i32) -> Self {
        ExitStatus::Code(code as i64)
    }
}

} // verus!
