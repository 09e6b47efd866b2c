//! Failures that capture control reports.
use vstd::prelude::*;

verus! {

#[derive(Clone, Copy, Debug, PartialEq, Eq, Structural)]
pub enum CoreErrorCode {
    NpcapNotFound,
    GameProcessNotFound,
    CaptureDeviceNotFound,
    SystemProbeFailed,
    CaptureAlreadyRunning,
    CaptureNotRunning,
}

#[derive(Clone, Debug)]
pub struct CoreError {
    pub code: CoreErrorCode,
    pub message: String,
}

impl CoreError {
    pub fn new(code: CoreErrorCode, message: &str) -> (result: Self)
        ensures
            result.code == code,
            result.message@ == message@,
    {
        CoreError { code, message: message.to_owned() }
    }
}

} // verus!
