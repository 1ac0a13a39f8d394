use vstd::prelude::*;

verus! {

/// Why the launcher ends without mirroring a child's status.
#[derive(Clone, Debug)]
pub enum LaunchError {
    /// The platform could not report the launcher's own path; holds the reason.
    ExePathUnknown(String),
    /// The launcher's path has no grandparent directory.
    NoParentDir,
    /// The interpreter could not be started; holds the reason.
    SpawnFailed(String),
}

/// The one-line diagnostic for an error.
pub open spec fn message_of(e: LaunchError) -> Seq<char> {
    match e {
        LaunchError::ExePathUnknown(d) => "Error determining executable path: "@ + d@,
        LaunchError::NoParentDir => "Error: Unable to determine parent directory of executable."@,
        LaunchError::SpawnFailed(d) => "Failed to start Python process: "@ + d@,
    }
}

impl LaunchError {
    /// The diagnostic written to the error stream.
    pub fn message(&self) -> (r: String)
        ensures
            r@ == message_of(*self),
    {
        match self {
            LaunchError::ExePathUnknown(d) => {
                let mut m = String::from_str("Error determining executable path: ");
                m.append(d.as_str());
                m
            },
            LaunchError::NoParentDir => String::from_str(
                "Error: Unable to determine parent directory of executable.",
            ),
            LaunchError::SpawnFailed(d) => {
                let mut m = String::from_str("Failed to start Python process: ");
                m.append(d.as_str());
                m
            },
        }
    }

    /// Every failure ends the launcher with status 1.
    pub fn exit_code(&self) -> (r: i32)
        ensures
            r == 1,
    {
        1
    }
}

/// The launcher's status once the child has ended: the child's own exit code
/// when it has one, else 1.
pub open spec fn exit_code_of(status: Option<i32>) -> i32 {
    match status {
        Some(c) => c,
        None => 1,
    }
}

/// Mirrors the child's exit code; a child that ended without one (killed by a
/// signal, say) gives 1.
pub fn exit_code(status: Option<i32>) -> (r: i32)
    ensures
        r == exit_code_of(status),
        status matches Some(c) ==> r == c,
        status is None ==> r == 1,
{
    match status {
        Some(c) => c,
        None => 1,
    }
}

} // verus!
