//! The typed failures of the library and the messages shown for them.

use vstd::prelude::*;
use vstd::string::*;

verus! {

/// Which side of a conversion a format string was given for.
#[derive(Clone, Copy, Debug, PartialEq, Eq, Structural)]
pub enum FormatRole {
    Input,
    Output,
}

/// The three operations that hand a request to the conversion engine.
#[derive(Clone, Copy, Debug, PartialEq, Eq, Structural)]
pub enum Operation {
    ConvertFile,
    ConvertContent,
    Preview,
}

/// The steps of loading and saving the history that can fail.
#[derive(Clone, Copy, Debug, PartialEq, Eq, Structural)]
pub enum HistoryOperation {
    Locate,
    Read,
    CreateDirectory,
    Serialize,
    Write,
}

/// Every failure that an operation of this library reports.
#[derive(Clone, Debug, PartialEq, Eq)]
pub enum ConversionError {
    /// The input file does not exist.
    InputNotFound { path: String },
    /// The format string is in no alias table; `raw` is the string as given.
    UnsupportedFormat { role: FormatRole, raw: String },
    /// The format is known by name but cannot be produced directly.
    RecognizedUnsupportedFormat { raw: String, remediation: String },
    /// The engine ran and failed; `diagnostic` is what it reported.
    EngineExecutionFailure { during: Operation, diagnostic: String },
    /// The preview bytes are not well-formed UTF-8.
    OutputDecodeFailure,
    /// The engine answered a preview request with something other than a
    /// buffer.
    UnexpectedEngineOutput,
    /// A step of loading or saving the history failed.
    HistoryIoFailure { operation: HistoryOperation, diagnostic: String },
}

/// The mathematical model of a [`ConversionError`]: the same cases, with
/// each text as its sequence of characters.
pub enum ErrorModel {
    InputNotFound { path: Seq<char> },
    UnsupportedFormat { role: FormatRole, raw: Seq<char> },
    RecognizedUnsupportedFormat { raw: Seq<char>, remediation: Seq<char> },
    EngineExecutionFailure { during: Operation, diagnostic: Seq<char> },
    OutputDecodeFailure,
    UnexpectedEngineOutput,
    HistoryIoFailure { operation: HistoryOperation, diagnostic: Seq<char> },
}

impl View for ConversionError {
    type V = ErrorModel;

    open spec fn view(&self) -> ErrorModel {
        match *self {
            ConversionError::InputNotFound { path } => ErrorModel::InputNotFound { path: path@ },
            ConversionError::UnsupportedFormat { role, raw } => ErrorModel::UnsupportedFormat {
                role,
                raw: raw@,
            },
            ConversionError::RecognizedUnsupportedFormat { raw, remediation } => {
                ErrorModel::RecognizedUnsupportedFormat { raw: raw@, remediation: remediation@ }
            },
            ConversionError::EngineExecutionFailure { during, diagnostic } => {
                ErrorModel::EngineExecutionFailure { during, diagnostic: diagnostic@ }
            },
            ConversionError::OutputDecodeFailure => ErrorModel::OutputDecodeFailure,
            ConversionError::UnexpectedEngineOutput => ErrorModel::UnexpectedEngineOutput,
            ConversionError::HistoryIoFailure { operation, diagnostic } => {
                ErrorModel::HistoryIoFailure { operation, diagnostic: diagnostic@ }
            },
        }
    }
}

/// A result with its error replaced by the error's model.
pub open spec fn modeled<T>(r: Result<T, ConversionError>) -> Result<T, ErrorModel> {
    match r {
        Ok(value) => Ok(value),
        Err(e) => Err(e@),
    }
}

/// What precedes the raw string in the message for an unknown format.
pub open spec fn unsupported_format_prefix(role: FormatRole) -> Seq<char> {
    match role {
        FormatRole::Input => "未支持的输入格式: "@,
        FormatRole::Output => "未支持的输出格式: "@,
    }
}

/// What precedes the engine's diagnostic in the message for a failed run.
pub open spec fn engine_failure_prefix(operation: Operation) -> Seq<char> {
    match operation {
        Operation::ConvertFile => "Pandoc 转换失败: "@,
        Operation::ConvertContent => "Pandoc 编辑器内容转换失败: "@,
        Operation::Preview => "Pandoc 预览生成失败: "@,
    }
}

/// What precedes the diagnostic in the message for a failed history step.
pub open spec fn history_failure_prefix(operation: HistoryOperation) -> Seq<char> {
    match operation {
        HistoryOperation::Locate => "无法获取基础本地数据目录"@,
        HistoryOperation::Read => "读取历史记录文件失败: "@,
        HistoryOperation::CreateDirectory => "创建历史记录目录失败: "@,
        HistoryOperation::Serialize => "序列化历史记录失败: "@,
        HistoryOperation::Write => "写入历史记录文件失败: "@,
    }
}

impl ErrorModel {
    /// The message shown to the user for this failure.
    pub open spec fn message(self) -> Seq<char> {
        match self {
            ErrorModel::InputNotFound { path } => "输入文件未找到: "@ + path,
            ErrorModel::UnsupportedFormat { role, raw } => unsupported_format_prefix(role) + raw,
            ErrorModel::RecognizedUnsupportedFormat { raw, remediation } => remediation,
            ErrorModel::EngineExecutionFailure { during, diagnostic } => engine_failure_prefix(during)
                + diagnostic,
            ErrorModel::OutputDecodeFailure => "Failed to 解码预览输出为 UTF-8"@,
            ErrorModel::UnexpectedEngineOutput => "意外的预览输出类型。"@,
            ErrorModel::HistoryIoFailure { operation, diagnostic } => history_failure_prefix(
                operation,
            ) + diagnostic,
        }
    }
}

/// A label followed by a text.
fn prefixed(prefix: &str, rest: &str) -> (r: String)
    ensures
        r@ == prefix@ + rest@,
{
    let mut text = String::from_str(prefix);
    text.append(rest);
    text
}

/// The literal that [`unsupported_format_prefix`] models.
fn unsupported_format_label(role: FormatRole) -> (r: &'static str)
    ensures
        r@ == unsupported_format_prefix(role),
{
    match role {
        FormatRole::Input => "未支持的输入格式: ",
        FormatRole::Output => "未支持的输出格式: ",
    }
}

/// The literal that [`engine_failure_prefix`] models.
fn engine_failure_label(operation: Operation) -> (r: &'static str)
    ensures
        r@ == engine_failure_prefix(operation),
{
    match operation {
        Operation::ConvertFile => "Pandoc 转换失败: ",
        Operation::ConvertContent => "Pandoc 编辑器内容转换失败: ",
        Operation::Preview => "Pandoc 预览生成失败: ",
    }
}

/// The literal that [`history_failure_prefix`] models.
fn history_failure_label(operation: HistoryOperation) -> (r: &'static str)
    ensures
        r@ == history_failure_prefix(operation),
{
    match operation {
        HistoryOperation::Locate => "无法获取基础本地数据目录",
        HistoryOperation::Read => "读取历史记录文件失败: ",
        HistoryOperation::CreateDirectory => "创建历史记录目录失败: ",
        HistoryOperation::Serialize => "序列化历史记录失败: ",
        HistoryOperation::Write => "写入历史记录文件失败: ",
    }
}

impl ConversionError {
    /// The message shown to the user for this failure.
    pub fn message(&self) -> (r: String)
        ensures
            r@ == self@.message(),
    {
        match self {
            ConversionError::InputNotFound { path } => prefixed("输入文件未找到: ", path.as_str()),
            ConversionError::UnsupportedFormat { role, raw } => prefixed(
                unsupported_format_label(*role),
                raw.as_str(),
            ),
            ConversionError::RecognizedUnsupportedFormat { raw, remediation } => remediation.clone(),
            ConversionError::EngineExecutionFailure { during, diagnostic } => prefixed(
                engine_failure_label(*during),
                diagnostic.as_str(),
            ),
            ConversionError::OutputDecodeFailure => String::from_str(
                "Failed to 解码预览输出为 UTF-8",
            ),
            ConversionError::UnexpectedEngineOutput => String::from_str("意外的预览输出类型。"),
            ConversionError::HistoryIoFailure { operation, diagnostic } => prefixed(
                history_failure_label(*operation),
                diagnostic.as_str(),
            ),
        }
    }
}

} // verus!
