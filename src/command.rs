//! The two top-level commands and their dispatch.
use vstd::prelude::*;
use crate::convert_to::ConvertTo;
use crate::error::ToolError;
use crate::format::Format;

verus! {

/// A top-level command.
#[derive(Clone, Debug)]
pub enum CommandLine {
    /// Convert standard input to an output encoding.
    ConvertTo(ConvertTo),
    /// Rewrite markdown files into their canonical form.
    Format(Format),
}

/// What a command produced, for the caller to carry out.
#[derive(Clone, Debug)]
pub enum CommandOutput {
    /// The converted document, to be written to standard output.
    Converted(String),
    /// The files of this run are to be formatted one by one.
    FormatFiles,
}

/// The command-line application.
#[derive(Clone, Debug)]
pub struct Application {
    pub command: CommandLine,
}

impl Application {
    /// Whether the command reads standard input.
    pub fn reads_input(&self) -> (r: bool)
        ensures
            r == (self.command is ConvertTo),
    {
        match &self.command {
            CommandLine::ConvertTo(_) => true,
            CommandLine::Format(_) => false,
        }
    }

    /// Runs the command on the given standard input. A conversion is strict: any
    /// error ends it with no output.
    pub fn run_command(&self, input: &str) -> (r: Result<CommandOutput, ToolError>)
        ensures
            self.command is Format ==> r matches Ok(CommandOutput::FormatFiles),
            self.command matches CommandLine::ConvertTo(c) ==> {
                let decoded = c.from.decoded(input@);
                &&& r is Ok <==> decoded is Some && c.output.printable(decoded->Some_0)
                &&& r is Ok ==> (r->Ok_0 matches CommandOutput::Converted(s)
                    && s@ == c.output.text_of(decoded->Some_0))
                &&& decoded is None ==> (r matches Err(ToolError::DecodeError { message })
                    && message@ == c.from.decode_message(input@))
                &&& (decoded is Some && r is Err) ==> r->Err_0 is InternalError
            },
    {
        match &self.command {
            CommandLine::ConvertTo(convert_to) => {
                let text = convert_to.run(input)?;
                Ok(CommandOutput::Converted(text))
            },
            CommandLine::Format(_) => Ok(CommandOutput::FormatFiles),
        }
    }
}

} // verus!
