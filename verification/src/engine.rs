//! What is handed to the conversion engine and what comes back from it.
//!
//! The engine itself is outside this library: a caller runs it on an
//! [`EngineRequest`] and reports what happened as an [`EngineOutcome`].

use crate::error::Operation;
use crate::format::FormatId;
use vstd::prelude::*;

verus! {

/// Where the engine reads the document from.
#[derive(Clone, Debug, PartialEq, Eq)]
pub enum InputTransport {
    /// The file at `path`.
    File { path: String },
    /// The text itself.
    Buffer { content: String },
}

/// Where the engine puts the converted document.
#[derive(Clone, Debug, PartialEq, Eq)]
pub enum OutputTransport {
    /// The file at `path`.
    File { path: String },
    /// A buffer in memory; nothing is written to disk.
    Buffer,
}

/// One conversion job for the engine.
#[derive(Clone, Debug, PartialEq, Eq)]
pub struct EngineRequest {
    pub input: InputTransport,
    /// The format the engine is told to read; `None` leaves the detection
    /// to the engine.
    pub input_format: Option<FormatId>,
    pub output: OutputTransport,
    pub output_format: FormatId,
    /// Whether a complete document is asked for, rather than a fragment.
    pub standalone: bool,
}

/// What the engine produced.
#[derive(Clone, Debug, PartialEq, Eq)]
pub enum EngineOutput {
    /// The document was written to the output file.
    Written,
    /// The document, as bytes.
    Buffer(Vec<u8>),
}

/// What a run of the engine ended with: its output, or its diagnostic.
pub type EngineOutcome = Result<EngineOutput, String>;

/// The model of an [`InputTransport`].
pub enum InputTransportModel {
    File { path: Seq<char> },
    Buffer { content: Seq<char> },
}

/// The model of an [`OutputTransport`].
pub enum OutputTransportModel {
    File { path: Seq<char> },
    Buffer,
}

/// The model of an [`EngineRequest`].
pub struct EngineRequestModel {
    pub input: InputTransportModel,
    pub input_format: Option<FormatId>,
    pub output: OutputTransportModel,
    pub output_format: FormatId,
    pub standalone: bool,
}

/// The model of an [`EngineOutput`].
pub enum EngineOutputModel {
    Written,
    Buffer(Seq<u8>),
}

impl View for InputTransport {
    type V = InputTransportModel;

    open spec fn view(&self) -> InputTransportModel {
        match *self {
            InputTransport::File { path } => InputTransportModel::File { path: path@ },
            InputTransport::Buffer { content } => InputTransportModel::Buffer { content: content@ },
        }
    }
}

impl View for OutputTransport {
    type V = OutputTransportModel;

    open spec fn view(&self) -> OutputTransportModel {
        match *self {
            OutputTransport::File { path } => OutputTransportModel::File { path: path@ },
            OutputTransport::Buffer => OutputTransportModel::Buffer,
        }
    }
}

impl View for EngineRequest {
    type V = EngineRequestModel;

    open spec fn view(&self) -> EngineRequestModel {
        EngineRequestModel {
            input: self.input@,
            input_format: self.input_format,
            output: self.output@,
            output_format: self.output_format,
            standalone: self.standalone,
        }
    }
}

impl View for EngineOutput {
    type V = EngineOutputModel;

    open spec fn view(&self) -> EngineOutputModel {
        match *self {
            EngineOutput::Written => EngineOutputModel::Written,
            EngineOutput::Buffer(bytes) => EngineOutputModel::Buffer(bytes@),
        }
    }
}

/// The model of an [`EngineOutcome`].
pub open spec fn outcome_model(outcome: EngineOutcome) -> Result<EngineOutputModel, Seq<char>> {
    match outcome {
        Ok(output) => Ok(output@),
        Err(diagnostic) => Err(diagnostic@),
    }
}

impl EngineRequestModel {
    /// What every request built by this library satisfies: formats are used
    /// in a direction they support, a complete document is asked for, text
    /// handed over in memory is Markdown, and output kept in memory is HTML.
    pub open spec fn well_formed(self) -> bool {
        &&& self.input_format matches Some(format) ==> format.usable_as_input()
        &&& self.output_format.usable_as_output()
        &&& self.standalone
        &&& self.input is Buffer ==> self.input_format == Some(FormatId::Markdown)
        &&& self.output is Buffer ==> self.output_format == FormatId::Html5
    }

    /// The operation that a request belongs to: a request that keeps its
    /// output in memory is a preview; otherwise the input tells a file
    /// conversion from a content conversion.
    pub open spec fn operation(self) -> Operation {
        match self.output {
            OutputTransportModel::Buffer => Operation::Preview,
            OutputTransportModel::File { .. } => match self.input {
                InputTransportModel::File { .. } => Operation::ConvertFile,
                InputTransportModel::Buffer { .. } => Operation::ConvertContent,
            },
        }
    }
}

impl EngineRequest {
    /// The operation that this request belongs to.
    pub fn operation(&self) -> (r: Operation)
        ensures
            r == self@.operation(),
    {
        match &self.output {
            OutputTransport::Buffer => Operation::Preview,
            OutputTransport::File { .. } => match &self.input {
                InputTransport::File { .. } => Operation::ConvertFile,
                InputTransport::Buffer { .. } => Operation::ConvertContent,
            },
        }
    }
}

} // verus!
