//! The errors that the commands report.
use vstd::prelude::*;

verus! {

/// Why a command was refused before any input was synthesized.
#[derive(PartialEq, Eq, Debug)]
pub enum ControlError {
    /// No monitor of the current enumeration has the requested id.
    MonitorNotFound,
    /// The mouse button is neither `left` nor `right`.
    InvalidButton,
    /// The key name matches no named key and is not a single character.
    UnknownKey(String),
    /// A coordinate translated between monitor and desktop leaves the `i32` range.
    OutOfRange,
}

impl ControlError {
    /// A short description of the error, for the caller of a command.
    pub fn message(&self) -> (r: String)
        ensures
            r@ == match self {
                ControlError::MonitorNotFound => "Monitor not found"@,
                ControlError::InvalidButton => "Invalid mouse button"@,
                ControlError::UnknownKey(name) => "Unknown key: "@ + name@,
                ControlError::OutOfRange => "Coordinate out of range"@,
            },
    {
        match self {
            ControlError::MonitorNotFound => "Monitor not found".to_string(),
            ControlError::InvalidButton => "Invalid mouse button".to_string(),
            ControlError::UnknownKey(name) => {
                let mut text = "Unknown key: ".to_string();
                text.append(name.as_str());
                text
            },
            ControlError::OutOfRange => "Coordinate out of range".to_string(),
        }
    }
}

} // verus!
