//! The failures a run can meet, by the stage at which they arise.

use vstd::prelude::*;
use crate::program::{Attribute, Uniform};

verus! {

/// Start-up could not prepare the rendering stage. Fatal: no frame ever runs.
#[derive(Clone, Copy, Debug, PartialEq, Eq, Structural)]
pub enum SetupError {
    /// The host offers no rendering context.
    MissingContext,
    /// A shader did not compile.
    ShaderCompile,
    /// The shader program did not link.
    ProgramLink,
    /// A buffer could not be allocated for vertex data.
    BufferAllocation,
    /// The linked program does not expose this vertex attribute.
    MissingAttribute(Attribute),
    /// The linked program does not expose this uniform.
    MissingUniform(Uniform),
}

/// The capture device could not be opened. Fatal to a run that depends on
/// captured audio, and to no other.
#[derive(Clone, Copy, Debug, PartialEq, Eq, Structural)]
pub enum CaptureError {
    /// The user or the host refused access to the device.
    PermissionDenied,
    /// There is no audio input device.
    NoDevice,
}

/// One tick's work failed. The tick is not retried and the scheduler stops.
#[derive(Clone, Copy, Debug, PartialEq, Eq, Structural)]
pub enum FrameError {
    /// The rendering stage rejected a call.
    Render,
    /// The audio pipeline rejected a call.
    Audio,
}

/// Any failure of a run, tagged with the stage that produced it.
#[derive(Clone, Copy, Debug, PartialEq, Eq, Structural)]
pub enum RunError {
    Setup(SetupError),
    Capture(CaptureError),
    Frame(FrameError),
}

/// The capture error that a refusal of the host stands for, by the name of
/// the exception that came with it. The host raises "NotFoundError" where
/// there is no input device and "OverconstrainedError" where none meets the
/// request. Any other name, and a refusal without a name, is a denial.
pub open spec fn spec_capture_error(name: Option<Seq<char>>) -> CaptureError {
    if name == Some("NotFoundError"@) || name == Some("OverconstrainedError"@) {
        CaptureError::NoDevice
    } else {
        CaptureError::PermissionDenied
    }
}

/// The capture error that a refusal of the host stands for.
pub fn capture_error(name: &Option<String>) -> (error: CaptureError)
    ensures
        error == spec_capture_error(
            match *name {
                Some(n) => Some(n@),
                None => None,
            },
        ),
{
    match name {
        Some(n) => {
            let not_found = "NotFoundError".to_owned();
            let overconstrained = "OverconstrainedError".to_owned();
            if *n == not_found || *n == overconstrained {
                CaptureError::NoDevice
            } else {
                CaptureError::PermissionDenied
            }
        },
        None => CaptureError::PermissionDenied,
    }
}

} // verus!
