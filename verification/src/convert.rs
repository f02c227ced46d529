//! The three conversion operations.
//!
//! Each operation has two halves around the run of the engine. The first
//! half checks the request and assembles the job for the engine, or fails
//! before the engine is touched. The second half, [`finish`], turns what the
//! engine reported into the result of the operation.

use crate::engine::{
    outcome_model, EngineOutcome, EngineOutput, EngineOutputModel, EngineRequest,
    EngineRequestModel, InputTransport, InputTransportModel, OutputTransport,
    OutputTransportModel,
};
use crate::error::{ConversionError, ErrorModel, Operation};
use crate::format::{
    input_resolution_can_be_read, parse_input_format, parse_output_format, resolve_input,
    resolve_output, FormatId,
};
use crate::text::{string_from_utf8, unicode_lowercase};
use vstd::prelude::*;
use vstd::string::*;
use vstd::utf8::*;

verus! {

/// A request to convert a file into another file.
#[derive(Clone, Debug, PartialEq, Eq)]
pub struct ConversionOptions {
    pub input_path: String,
    pub output_format: String,
    pub output_path: String,
    pub input_format: Option<String>,
}

/// A request to convert Markdown text held in memory into a file.
#[derive(Clone, Debug, PartialEq, Eq)]
pub struct ConversionContentOptions {
    pub input_content: String,
    pub output_format: String,
    pub output_path: String,
}

/// A request to render a file as HTML for display.
#[derive(Clone, Debug, PartialEq, Eq)]
pub struct PreviewOptions {
    pub input_path: String,
    pub input_format: Option<String>,
}

/// A job assembled by one of the operations, or the failure that stopped it.
pub open spec fn modeled_request(r: Result<EngineRequest, ConversionError>) -> Result<
    EngineRequestModel,
    ErrorModel,
> {
    match r {
        Ok(request) => Ok(request@),
        Err(e) => Err(e@),
    }
}

/// The result of an operation, with texts as sequences of characters.
pub open spec fn modeled_text(r: Result<String, ConversionError>) -> Result<Seq<char>, ErrorModel> {
    match r {
        Ok(text) => Ok(text@),
        Err(e) => Err(e@),
    }
}

/// What [`convert_file`] returns. The existence of the input is checked
/// first, then the output format, then the input format.
pub open spec fn file_conversion_plan(
    input_path: Seq<char>,
    output_format: Seq<char>,
    output_path: Seq<char>,
    input_format: Option<Seq<char>>,
    input_exists: bool,
) -> Result<EngineRequestModel, ErrorModel> {
    if !input_exists {
        Err(ErrorModel::InputNotFound { path: input_path })
    } else {
        match resolve_output(output_format) {
            Err(e) => Err(e),
            Ok(target) => match resolve_input(input_format) {
                Err(e) => Err(e),
                Ok(selector) => Ok(
                    EngineRequestModel {
                        input: InputTransportModel::File { path: input_path },
                        input_format: selector.explicit_format(),
                        output: OutputTransportModel::File { path: output_path },
                        output_format: target,
                        standalone: true,
                    },
                ),
            },
        }
    }
}

/// What [`convert_content`] returns. The text is always read as Markdown.
pub open spec fn content_conversion_plan(
    input_content: Seq<char>,
    output_format: Seq<char>,
    output_path: Seq<char>,
) -> Result<EngineRequestModel, ErrorModel> {
    match resolve_output(output_format) {
        Err(e) => Err(e),
        Ok(target) => Ok(
            EngineRequestModel {
                input: InputTransportModel::Buffer { content: input_content },
                input_format: Some(FormatId::Markdown),
                output: OutputTransportModel::File { path: output_path },
                output_format: target,
                standalone: true,
            },
        ),
    }
}

/// What [`preview_file`] returns. The output is always HTML in memory.
pub open spec fn preview_plan(
    input_path: Seq<char>,
    input_format: Option<Seq<char>>,
    input_exists: bool,
) -> Result<EngineRequestModel, ErrorModel> {
    if !input_exists {
        Err(ErrorModel::InputNotFound { path: input_path })
    } else {
        match resolve_input(input_format) {
            Err(e) => Err(e),
            Ok(selector) => Ok(
                EngineRequestModel {
                    input: InputTransportModel::File { path: input_path },
                    input_format: selector.explicit_format(),
                    output: OutputTransportModel::Buffer,
                    output_format: FormatId::Html5,
                    standalone: true,
                },
            ),
        }
    }
}

/// The confirmation returned when a document was written to `output_path`.
pub open spec fn confirmation(output_path: Seq<char>) -> Seq<char> {
    "转换成功! 输出文件: "@ + output_path
}

/// What [`finish`] returns for a request and what the engine reported.
pub open spec fn completion(
    request: EngineRequestModel,
    outcome: Result<EngineOutputModel, Seq<char>>,
) -> Result<Seq<char>, ErrorModel> {
    match outcome {
        Err(diagnostic) => Err(
            ErrorModel::EngineExecutionFailure { during: request.operation(), diagnostic },
        ),
        Ok(output) => match request.output {
            OutputTransportModel::File { path } => Ok(confirmation(path)),
            OutputTransportModel::Buffer => match output {
                EngineOutputModel::Written => Err(ErrorModel::UnexpectedEngineOutput),
                EngineOutputModel::Buffer(bytes) => if valid_utf8(bytes) {
                    Ok(decode_utf8(bytes))
                } else {
                    Err(ErrorModel::OutputDecodeFailure)
                },
            },
        },
    }
}

/// The format string of a request that may leave it out.
fn optional_text(text: &Option<String>) -> (r: Option<&str>)
    ensures
        r is Some == text is Some,
        r matches Some(given) ==> given@ == text->0@,
{
    match text {
        Some(given) => Some(given.as_str()),
        None => None,
    }
}

/// Assembles the job that converts the file at `options.input_path` into the
/// file at `options.output_path`.
///
/// `input_exists` says whether the input file exists. If it does not, the
/// operation fails with `InputNotFound`, whatever the format strings hold.
pub fn convert_file(options: ConversionOptions, input_exists: bool) -> (r: Result<
    EngineRequest,
    ConversionError,
>)
    ensures
        modeled_request(r) == file_conversion_plan(
            options.input_path@,
            options.output_format@,
            options.output_path@,
            options.input_format.deep_view(),
            input_exists,
        ),
        !input_exists ==> r == Err::<EngineRequest, ConversionError>(
            ConversionError::InputNotFound { path: options.input_path },
        ),
        r matches Ok(request) ==> {
            &&& request@.well_formed()
            &&& request.input == (InputTransport::File { path: options.input_path })
            &&& request.output == (OutputTransport::File { path: options.output_path })
            &&& request.standalone
        },
{
    if !input_exists {
        return Err(ConversionError::InputNotFound { path: options.input_path });
    }
    let target = match parse_output_format(options.output_format.as_str()) {
        Ok(target) => target,
        Err(e) => {
            return Err(e);
        },
    };
    let selector = match parse_input_format(optional_text(&options.input_format)) {
        Ok(selector) => selector,
        Err(e) => {
            return Err(e);
        },
    };
    Ok(
        EngineRequest {
            input: InputTransport::File { path: options.input_path },
            input_format: selector.explicit_format(),
            output: OutputTransport::File { path: options.output_path },
            output_format: target,
            standalone: true,
        },
    )
}

/// Assembles the job that converts Markdown text into the file at
/// `options.output_path`.
pub fn convert_content(options: ConversionContentOptions) -> (r: Result<
    EngineRequest,
    ConversionError,
>)
    ensures
        modeled_request(r) == content_conversion_plan(
            options.input_content@,
            options.output_format@,
            options.output_path@,
        ),
        r matches Ok(request) ==> {
            &&& request@.well_formed()
            &&& request.input == (InputTransport::Buffer { content: options.input_content })
            &&& request.input_format == Some(FormatId::Markdown)
            &&& request.output == (OutputTransport::File { path: options.output_path })
            &&& request.standalone
        },
{
    let target = match parse_output_format(options.output_format.as_str()) {
        Ok(target) => target,
        Err(e) => {
            return Err(e);
        },
    };
    Ok(
        EngineRequest {
            input: InputTransport::Buffer { content: options.input_content },
            input_format: Some(FormatId::Markdown),
            output: OutputTransport::File { path: options.output_path },
            output_format: target,
            standalone: true,
        },
    )
}

/// Assembles the job that renders the file at `options.input_path` as HTML
/// in memory.
///
/// `input_exists` says whether the input file exists. If it does not, the
/// operation fails with `InputNotFound`, whatever the format string holds.
pub fn preview_file(options: PreviewOptions, input_exists: bool) -> (r: Result<
    EngineRequest,
    ConversionError,
>)
    ensures
        modeled_request(r) == preview_plan(
            options.input_path@,
            options.input_format.deep_view(),
            input_exists,
        ),
        !input_exists ==> r == Err::<EngineRequest, ConversionError>(
            ConversionError::InputNotFound { path: options.input_path },
        ),
        r matches Ok(request) ==> {
            &&& request@.well_formed()
            &&& request.input == (InputTransport::File { path: options.input_path })
            &&& request.output == OutputTransport::Buffer
            &&& request.output_format == FormatId::Html5
            &&& request.standalone
        },
{
    if !input_exists {
        return Err(ConversionError::InputNotFound { path: options.input_path });
    }
    let selector = match parse_input_format(optional_text(&options.input_format)) {
        Ok(selector) => selector,
        Err(e) => {
            return Err(e);
        },
    };
    Ok(
        EngineRequest {
            input: InputTransport::File { path: options.input_path },
            input_format: selector.explicit_format(),
            output: OutputTransport::Buffer,
            output_format: FormatId::Html5,
            standalone: true,
        },
    )
}

/// Turns what the engine reported for `request` into the result of the
/// operation.
///
/// A diagnostic from the engine is passed on unchanged. A request that
/// writes a file succeeds with a confirmation that names the file. A request
/// that keeps its output in memory succeeds with the output as text, and
/// only if the engine handed back a buffer of well-formed UTF-8.
pub fn finish(request: &EngineRequest, outcome: EngineOutcome) -> (r: Result<
    String,
    ConversionError,
>)
    ensures
        modeled_text(r) == completion(request@, outcome_model(outcome)),
        outcome matches Err(diagnostic) ==> r == Err::<String, ConversionError>(
            ConversionError::EngineExecutionFailure { during: request@.operation(), diagnostic },
        ),
        request.output is Buffer ==> {
            &&& outcome matches Ok(EngineOutput::Written) ==> r == Err::<String, ConversionError>(
                ConversionError::UnexpectedEngineOutput,
            )
            &&& r is Ok ==> outcome matches Ok(EngineOutput::Buffer(_))
        },
{
    match outcome {
        Err(diagnostic) => Err(
            ConversionError::EngineExecutionFailure { during: request.operation(), diagnostic },
        ),
        Ok(output) => match &request.output {
            OutputTransport::File { path } => {
                let mut text = String::from_str("转换成功! 输出文件: ");
                text.append(path.as_str());
                Ok(text)
            },
            OutputTransport::Buffer => match output {
                EngineOutput::Written => Err(ConversionError::UnexpectedEngineOutput),
                EngineOutput::Buffer(bytes) => match string_from_utf8(bytes) {
                    Some(text) => Ok(text),
                    None => Err(ConversionError::OutputDecodeFailure),
                },
            },
        },
    }
}

/// A preview never ends in a write confirmation. Whatever the input format
/// string holds, the job asks for HTML in a buffer; and whatever the engine
/// reports for such a job, the result is an error or the decoded buffer.
pub proof fn preview_never_confirms_a_write(
    input_path: Seq<char>,
    input_format: Option<Seq<char>>,
    outcome: Result<EngineOutputModel, Seq<char>>,
)
    ensures
        preview_plan(input_path, input_format, true) matches Ok(request) ==> {
            &&& request.output == OutputTransportModel::Buffer
            &&& request.output_format == FormatId::Html5
            &&& request.operation() == Operation::Preview
            &&& completion(request, outcome) matches Ok(text) ==> (outcome matches Ok(
                EngineOutputModel::Buffer(bytes),
            ) && valid_utf8(bytes) && text == decode_utf8(bytes))
        },
{
}

/// A missing input file is reported before anything else is looked at: the
/// format strings, good or bad, make no difference.
pub proof fn missing_input_is_reported_first(
    input_path: Seq<char>,
    output_format: Seq<char>,
    output_path: Seq<char>,
    input_format: Option<Seq<char>>,
)
    ensures
        file_conversion_plan(input_path, output_format, output_path, input_format, false) == Err::<
            EngineRequestModel,
            ErrorModel,
        >(ErrorModel::InputNotFound { path: input_path }),
        preview_plan(input_path, input_format, false) == Err::<EngineRequestModel, ErrorModel>(
            ErrorModel::InputNotFound { path: input_path },
        ),
        file_conversion_plan(input_path, output_format, output_path, input_format, true)
            matches Err(e) ==> !(e is InputNotFound),
        preview_plan(input_path, input_format, true) matches Err(e) ==> !(e is InputNotFound),
{
}

/// Every job that the three operations assemble is well formed.
pub proof fn plans_are_well_formed(
    input_path: Seq<char>,
    output_format: Seq<char>,
    output_path: Seq<char>,
    input_format: Option<Seq<char>>,
    input_exists: bool,
)
    ensures
        file_conversion_plan(input_path, output_format, output_path, input_format, input_exists)
            matches Ok(request) ==> request.well_formed(),
        content_conversion_plan(input_path, output_format, output_path) matches Ok(request)
            ==> request.well_formed(),
        preview_plan(input_path, input_format, input_exists) matches Ok(request)
            ==> request.well_formed(),
{
    match input_format {
        Some(given) => {
            input_resolution_can_be_read(given, unicode_lowercase(given));
        },
        None => {},
    }
}

} // verus!
