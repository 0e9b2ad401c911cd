//! The errors of the tool.
use vstd::prelude::*;

verus! {

/// The step of an in-place rewrite at which a file operation failed.
#[derive(Clone, Copy, Debug, PartialEq, Eq, Structural)]
pub enum IoStep {
    Read,
    WriteTemporary,
    Rename,
}

/// Everything that can go wrong in a conversion or an in-place rewrite.
#[derive(Clone, Debug)]
pub enum ToolError {
    /// A format token outside the closed set; `accepted` lists the tokens that are.
    UnsupportedFormat { token: String, accepted: String },
    /// An enumerated option with a value outside its set.
    InvalidOption { field: String, value: String, accepted: String },
    /// The input could not be decoded; `message` is the engine's diagnostic.
    DecodeError { message: String },
    /// A file operation failed: `path` is the file the failing step wrote or read.
    IoError { path: String, step: IoStep, message: String },
    /// An encoder failed on a well-formed document.
    InternalError { message: String },
}

/// The words that open the account of a failed file operation.
pub open spec fn step_words(step: IoStep) -> Seq<char> {
    match step {
        IoStep::Read => "Failed to read file: "@,
        IoStep::WriteTemporary => "Failed to write temporary file: "@,
        IoStep::Rename => "Failed to rename temporary file to: "@,
    }
}

impl ToolError {
    /// The account of an error: it names the offending token, option value or file.
    pub open spec fn describe(&self) -> Seq<char> {
        match self {
            ToolError::UnsupportedFormat { token, accepted } =>
                "Invalid format: "@ + token@ + ". Supported formats: "@ + accepted@,
            ToolError::InvalidOption { field, value, accepted } =>
                "Invalid "@ + field@ + ": "@ + value@ + ". Supported: "@ + accepted@,
            ToolError::DecodeError { message } => "Failed to decode input: "@ + message@,
            ToolError::IoError { path, step, message } => step_words(*step) + path@ + ": "@ + message@,
            ToolError::InternalError { message } => "Internal error: "@ + message@,
        }
    }

    /// A human-readable account of the error, naming the offending value.
    pub fn message(&self) -> (r: String)
        ensures
            r@ == self.describe(),
    {
        match self {
            ToolError::UnsupportedFormat { token, accepted } => {
                let mut m = String::from_str("Invalid format: ");
                m.append(token.as_str());
                m.append(". Supported formats: ");
                m.append(accepted.as_str());
                m
            },
            ToolError::InvalidOption { field, value, accepted } => {
                let mut m = String::from_str("Invalid ");
                m.append(field.as_str());
                m.append(": ");
                m.append(value.as_str());
                m.append(". Supported: ");
                m.append(accepted.as_str());
                m
            },
            ToolError::DecodeError { message } => {
                let mut m = String::from_str("Failed to decode input: ");
                m.append(message.as_str());
                m
            },
            ToolError::IoError { path, step, message } => {
                let mut m = match step {
                    IoStep::Read => String::from_str("Failed to read file: "),
                    IoStep::WriteTemporary => String::from_str("Failed to write temporary file: "),
                    IoStep::Rename => String::from_str("Failed to rename temporary file to: "),
                };
                m.append(path.as_str());
                m.append(": ");
                m.append(message.as_str());
                m
            },
            ToolError::InternalError { message } => {
                let mut m = String::from_str("Internal error: ");
                m.append(message.as_str());
                m
            },
        }
    }
}

} // verus!
