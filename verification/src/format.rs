//! The closed set of document formats and the resolution of user-supplied
//! format strings into it.

use crate::error::{modeled, ConversionError, ErrorModel, FormatRole};
use crate::text::{
    ascii_case_insensitive_match, eq_ignore_ascii_case, same_text, to_lowercase, unicode_lowercase,
};
use vstd::prelude::*;
use vstd::string::*;

verus! {

/// A document format that can be handed to the conversion engine.
#[derive(Clone, Copy, Debug, PartialEq, Eq, Structural)]
pub enum FormatId {
    Markdown,
    Html5,
    Latex,
    Rst,
    Docx,
    OpenDocument,
    Epub,
}

impl FormatId {
    /// Whether documents in this format can be read.
    pub open spec fn spec_usable_as_input(self) -> bool {
        self != FormatId::OpenDocument
    }

    /// Whether documents in this format can be written.
    pub open spec fn spec_usable_as_output(self) -> bool {
        true
    }

    /// Whether documents in this format can be read.
    #[verifier::when_used_as_spec(spec_usable_as_input)]
    pub fn usable_as_input(self) -> (r: bool)
        ensures
            r == self.spec_usable_as_input(),
    {
        match self {
            FormatId::OpenDocument => false,
            _ => true,
        }
    }

    /// Whether documents in this format can be written.
    #[verifier::when_used_as_spec(spec_usable_as_output)]
    pub fn usable_as_output(self) -> (r: bool)
        ensures
            r == self.spec_usable_as_output(),
    {
        true
    }
}

/// An output format that is known by name but is not a [`FormatId`]: asking
/// for it is refused with advice on what to ask for instead.
#[derive(Clone, Copy, Debug, PartialEq, Eq, Structural)]
pub enum UnsupportedTarget {
    Html4,
    Pdf,
}

impl UnsupportedTarget {
    /// The advice given when this format is asked for.
    pub open spec fn spec_remediation(self) -> Seq<char> {
        match self {
            UnsupportedTarget::Html4 => {
                "Html4 输出格式名称不确定或可能不直接支持。请尝试 Html5 或检查 pandoc crate 文档。"@
            },
            UnsupportedTarget::Pdf => {
                "直接通过 crate 输出 PDF 需要特定引擎设置。请使用中间格式（如 LaTeX 或 HTML）。"@
            },
        }
    }

    /// The advice given when this format is asked for.
    pub fn remediation(self) -> (r: String)
        ensures
            r@ == self.spec_remediation(),
    {
        match self {
            UnsupportedTarget::Html4 => String::from_str(
                "Html4 输出格式名称不确定或可能不直接支持。请尝试 Html5 或检查 pandoc crate 文档。",
            ),
            UnsupportedTarget::Pdf => String::from_str(
                "直接通过 crate 输出 PDF 需要特定引擎设置。请使用中间格式（如 LaTeX 或 HTML）。",
            ),
        }
    }
}

/// What a name in the output alias table stands for.
#[derive(Clone, Copy, Debug, PartialEq, Eq, Structural)]
pub enum OutputAlias {
    Supported(FormatId),
    Unsupported(UnsupportedTarget),
}

/// How the input format of a conversion is chosen.
#[derive(Clone, Copy, Debug, PartialEq, Eq, Structural)]
pub enum InputSelector {
    /// The engine infers the format from the input.
    AutoDetect,
    /// The engine is told the format.
    Explicit(FormatId),
}

impl InputSelector {
    /// The format handed to the engine: none when the engine is to detect it.
    pub open spec fn spec_explicit_format(self) -> Option<FormatId> {
        match self {
            InputSelector::AutoDetect => None,
            InputSelector::Explicit(format) => Some(format),
        }
    }

    /// The format handed to the engine: none when the engine is to detect it.
    #[verifier::when_used_as_spec(spec_explicit_format)]
    pub fn explicit_format(self) -> (r: Option<FormatId>)
        ensures
            r == self.spec_explicit_format(),
    {
        match self {
            InputSelector::AutoDetect => None,
            InputSelector::Explicit(format) => Some(format),
        }
    }
}

/// The output alias table, keyed by lowercase name.
pub open spec fn output_alias(lowered: Seq<char>) -> Option<OutputAlias> {
    if lowered == "docx"@ {
        Some(OutputAlias::Supported(FormatId::Docx))
    } else if lowered == "html"@ || lowered == "html5"@ {
        Some(OutputAlias::Supported(FormatId::Html5))
    } else if lowered == "html4"@ {
        Some(OutputAlias::Unsupported(UnsupportedTarget::Html4))
    } else if lowered == "pdf"@ {
        Some(OutputAlias::Unsupported(UnsupportedTarget::Pdf))
    } else if lowered == "tex"@ || lowered == "latex"@ {
        Some(OutputAlias::Supported(FormatId::Latex))
    } else if lowered == "md"@ || lowered == "markdown"@ {
        Some(OutputAlias::Supported(FormatId::Markdown))
    } else if lowered == "rst"@ {
        Some(OutputAlias::Supported(FormatId::Rst))
    } else if lowered == "odt"@ {
        Some(OutputAlias::Supported(FormatId::OpenDocument))
    } else if lowered == "epub"@ || lowered == "epub3"@ || lowered == "epub2"@ {
        Some(OutputAlias::Supported(FormatId::Epub))
    } else {
        None
    }
}

/// The input alias table, keyed by lowercase name.
pub open spec fn input_alias(lowered: Seq<char>) -> Option<FormatId> {
    if lowered == "markdown"@ || lowered == "md"@ {
        Some(FormatId::Markdown)
    } else if lowered == "html"@ || lowered == "html5"@ {
        Some(FormatId::Html5)
    } else if lowered == "latex"@ || lowered == "tex"@ {
        Some(FormatId::Latex)
    } else if lowered == "rst"@ {
        Some(FormatId::Rst)
    } else if lowered == "docx"@ {
        Some(FormatId::Docx)
    } else if lowered == "epub"@ {
        Some(FormatId::Epub)
    } else {
        None
    }
}

/// Whether a format string asks for automatic detection: it is `auto` in
/// any mix of upper and lower case.
pub open spec fn is_auto_keyword(raw: Seq<char>) -> bool {
    ascii_case_insensitive_match(raw, "auto"@)
}

/// The outcome of resolving the output format string `raw`, whose lowercase
/// form is `lowered`.
pub open spec fn output_resolution(raw: Seq<char>, lowered: Seq<char>) -> Result<
    FormatId,
    ErrorModel,
> {
    match output_alias(lowered) {
        Some(OutputAlias::Supported(format)) => Ok(format),
        Some(OutputAlias::Unsupported(target)) => Err(
            ErrorModel::RecognizedUnsupportedFormat {
                raw,
                remediation: target.spec_remediation(),
            },
        ),
        None => Err(ErrorModel::UnsupportedFormat { role: FormatRole::Output, raw }),
    }
}

/// The outcome of resolving the input format string `raw`, whose lowercase
/// form is `lowered`.
pub open spec fn input_resolution(raw: Seq<char>, lowered: Seq<char>) -> Result<
    InputSelector,
    ErrorModel,
> {
    if is_auto_keyword(raw) {
        Ok(InputSelector::AutoDetect)
    } else {
        match input_alias(lowered) {
            Some(format) => Ok(InputSelector::Explicit(format)),
            None => Err(ErrorModel::UnsupportedFormat { role: FormatRole::Input, raw }),
        }
    }
}

/// The outcome of resolving an output format string.
pub open spec fn resolve_output(raw: Seq<char>) -> Result<FormatId, ErrorModel> {
    output_resolution(raw, unicode_lowercase(raw))
}

/// The outcome of resolving an input format string that may be absent.
pub open spec fn resolve_input(raw: Option<Seq<char>>) -> Result<InputSelector, ErrorModel> {
    match raw {
        None => Ok(InputSelector::AutoDetect),
        Some(given) => input_resolution(given, unicode_lowercase(given)),
    }
}

/// The lengths and the telling characters of the names in the alias tables.
proof fn alias_names_differ()
    ensures
        "md"@.len() == 2,
        "pdf"@.len() == 3 && "pdf"@[0] == 'p',
        "tex"@.len() == 3 && "tex"@[0] == 't',
        "rst"@.len() == 3 && "rst"@[0] == 'r',
        "odt"@.len() == 3 && "odt"@[0] == 'o',
        "docx"@.len() == 4 && "docx"@[0] == 'd',
        "html"@.len() == 4 && "html"@[0] == 'h',
        "epub"@.len() == 4 && "epub"@[0] == 'e',
        "html5"@.len() == 5 && "html5"@[0] == 'h' && "html5"@[4] == '5',
        "html4"@.len() == 5 && "html4"@[0] == 'h' && "html4"@[4] == '4',
        "latex"@.len() == 5 && "latex"@[0] == 'l',
        "epub3"@.len() == 5 && "epub3"@[0] == 'e' && "epub3"@[4] == '3',
        "epub2"@.len() == 5 && "epub2"@[0] == 'e' && "epub2"@[4] == '2',
        "markdown"@.len() == 8,
{
    reveal_strlit("md");
    reveal_strlit("pdf");
    reveal_strlit("tex");
    reveal_strlit("rst");
    reveal_strlit("odt");
    reveal_strlit("docx");
    reveal_strlit("html");
    reveal_strlit("epub");
    reveal_strlit("html5");
    reveal_strlit("html4");
    reveal_strlit("latex");
    reveal_strlit("epub3");
    reveal_strlit("epub2");
    reveal_strlit("markdown");
}

/// Every name of the output alias table stands for what the table says:
/// the twelve names of supported formats resolve, names of one format to
/// the same format, and `html4` and `pdf` are known as unsupported.
pub proof fn output_alias_table()
    ensures
        output_alias("docx"@) == Some(OutputAlias::Supported(FormatId::Docx)),
        output_alias("html"@) == Some(OutputAlias::Supported(FormatId::Html5)),
        output_alias("html5"@) == Some(OutputAlias::Supported(FormatId::Html5)),
        output_alias("md"@) == Some(OutputAlias::Supported(FormatId::Markdown)),
        output_alias("markdown"@) == Some(OutputAlias::Supported(FormatId::Markdown)),
        output_alias("tex"@) == Some(OutputAlias::Supported(FormatId::Latex)),
        output_alias("latex"@) == Some(OutputAlias::Supported(FormatId::Latex)),
        output_alias("rst"@) == Some(OutputAlias::Supported(FormatId::Rst)),
        output_alias("odt"@) == Some(OutputAlias::Supported(FormatId::OpenDocument)),
        output_alias("epub"@) == Some(OutputAlias::Supported(FormatId::Epub)),
        output_alias("epub2"@) == Some(OutputAlias::Supported(FormatId::Epub)),
        output_alias("epub3"@) == Some(OutputAlias::Supported(FormatId::Epub)),
        output_alias("html4"@) == Some(OutputAlias::Unsupported(UnsupportedTarget::Html4)),
        output_alias("pdf"@) == Some(OutputAlias::Unsupported(UnsupportedTarget::Pdf)),
{
    alias_names_differ();
}

/// Every name of the input alias table stands for what the table says, and
/// `odt` is not among them.
pub proof fn input_alias_table()
    ensures
        input_alias("markdown"@) == Some(FormatId::Markdown),
        input_alias("md"@) == Some(FormatId::Markdown),
        input_alias("html"@) == Some(FormatId::Html5),
        input_alias("html5"@) == Some(FormatId::Html5),
        input_alias("latex"@) == Some(FormatId::Latex),
        input_alias("tex"@) == Some(FormatId::Latex),
        input_alias("rst"@) == Some(FormatId::Rst),
        input_alias("docx"@) == Some(FormatId::Docx),
        input_alias("epub"@) == Some(FormatId::Epub),
        input_alias("odt"@) is None,
{
    alias_names_differ();
}

/// A string whose lowercase form is in no alias table is refused as
/// unsupported by both resolutions, and the error holds the string as it
/// was given. The one exception is `auto`, which asks for detection of the
/// input format.
pub proof fn strings_outside_the_tables_are_unsupported(raw: Seq<char>, lowered: Seq<char>)
    requires
        output_alias(lowered) is None,
    ensures
        input_alias(lowered) is None,
        output_resolution(raw, lowered) == Err::<FormatId, ErrorModel>(
            ErrorModel::UnsupportedFormat { role: FormatRole::Output, raw },
        ),
        !is_auto_keyword(raw) ==> input_resolution(raw, lowered) == Err::<
            InputSelector,
            ErrorModel,
        >(ErrorModel::UnsupportedFormat { role: FormatRole::Input, raw }),
{
}

/// A format that the input resolution hands to the engine can be read.
pub proof fn input_resolution_can_be_read(raw: Seq<char>, lowered: Seq<char>)
    ensures
        input_resolution(raw, lowered) matches Ok(InputSelector::Explicit(format))
            ==> format.usable_as_input(),
{
}

/// Looks a lowercase name up in the output alias table.
pub fn lookup_output_alias(lowered: &str) -> (r: Option<OutputAlias>)
    ensures
        r == output_alias(lowered@),
{
    if same_text(lowered, "docx") {
        Some(OutputAlias::Supported(FormatId::Docx))
    } else if same_text(lowered, "html") || same_text(lowered, "html5") {
        Some(OutputAlias::Supported(FormatId::Html5))
    } else if same_text(lowered, "html4") {
        Some(OutputAlias::Unsupported(UnsupportedTarget::Html4))
    } else if same_text(lowered, "pdf") {
        Some(OutputAlias::Unsupported(UnsupportedTarget::Pdf))
    } else if same_text(lowered, "tex") || same_text(lowered, "latex") {
        Some(OutputAlias::Supported(FormatId::Latex))
    } else if same_text(lowered, "md") || same_text(lowered, "markdown") {
        Some(OutputAlias::Supported(FormatId::Markdown))
    } else if same_text(lowered, "rst") {
        Some(OutputAlias::Supported(FormatId::Rst))
    } else if same_text(lowered, "odt") {
        Some(OutputAlias::Supported(FormatId::OpenDocument))
    } else if same_text(lowered, "epub") || same_text(lowered, "epub3") || same_text(
        lowered,
        "epub2",
    ) {
        Some(OutputAlias::Supported(FormatId::Epub))
    } else {
        None
    }
}

/// Looks a lowercase name up in the input alias table.
pub fn lookup_input_alias(lowered: &str) -> (r: Option<FormatId>)
    ensures
        r == input_alias(lowered@),
        r matches Some(format) ==> format.usable_as_input(),
{
    if same_text(lowered, "markdown") || same_text(lowered, "md") {
        Some(FormatId::Markdown)
    } else if same_text(lowered, "html") || same_text(lowered, "html5") {
        Some(FormatId::Html5)
    } else if same_text(lowered, "latex") || same_text(lowered, "tex") {
        Some(FormatId::Latex)
    } else if same_text(lowered, "rst") {
        Some(FormatId::Rst)
    } else if same_text(lowered, "docx") {
        Some(FormatId::Docx)
    } else if same_text(lowered, "epub") {
        Some(FormatId::Epub)
    } else {
        None
    }
}

/// Resolves the output format string `format_str`, given its lowercase form.
///
/// A name in the alias table gives its format. `html4` and `pdf` are refused
/// with advice. Any other string is refused as unknown, and the error holds
/// `format_str` as it was given.
pub fn classify_output_format(format_str: &str, lowered: &str) -> (r: Result<
    FormatId,
    ConversionError,
>)
    ensures
        modeled(r) == output_resolution(format_str@, lowered@),
        lowered@ == "docx"@ ==> r == Ok::<FormatId, ConversionError>(FormatId::Docx),
        lowered@ == "html"@ || lowered@ == "html5"@ ==> r == Ok::<FormatId, ConversionError>(
            FormatId::Html5,
        ),
        lowered@ == "tex"@ || lowered@ == "latex"@ ==> r == Ok::<FormatId, ConversionError>(
            FormatId::Latex,
        ),
        lowered@ == "md"@ || lowered@ == "markdown"@ ==> r == Ok::<FormatId, ConversionError>(
            FormatId::Markdown,
        ),
        lowered@ == "rst"@ ==> r == Ok::<FormatId, ConversionError>(FormatId::Rst),
        lowered@ == "odt"@ ==> r == Ok::<FormatId, ConversionError>(FormatId::OpenDocument),
        lowered@ == "epub"@ || lowered@ == "epub2"@ || lowered@ == "epub3"@ ==> r == Ok::<
            FormatId,
            ConversionError,
        >(FormatId::Epub),
        lowered@ == "html4"@ ==> modeled(r) == Err::<FormatId, ErrorModel>(
            ErrorModel::RecognizedUnsupportedFormat {
                raw: format_str@,
                remediation: UnsupportedTarget::Html4.spec_remediation(),
            },
        ),
        lowered@ == "pdf"@ ==> modeled(r) == Err::<FormatId, ErrorModel>(
            ErrorModel::RecognizedUnsupportedFormat {
                raw: format_str@,
                remediation: UnsupportedTarget::Pdf.spec_remediation(),
            },
        ),
        output_alias(lowered@) is None ==> modeled(r) == Err::<FormatId, ErrorModel>(
            ErrorModel::UnsupportedFormat { role: FormatRole::Output, raw: format_str@ },
        ),
{
    proof {
        output_alias_table();
    }
    match lookup_output_alias(lowered) {
        Some(OutputAlias::Supported(format)) => Ok(format),
        Some(OutputAlias::Unsupported(target)) => Err(
            ConversionError::RecognizedUnsupportedFormat {
                raw: String::from_str(format_str),
                remediation: target.remediation(),
            },
        ),
        None => Err(
            ConversionError::UnsupportedFormat {
                role: FormatRole::Output,
                raw: String::from_str(format_str),
            },
        ),
    }
}

/// Resolves the input format string `format_str`, given its lowercase form.
///
/// `auto` in any case asks for detection. A name in the alias table gives
/// its format. Any other string is refused as unknown, and the error holds
/// `format_str` as it was given.
pub fn classify_input_format(format_str: &str, lowered: &str) -> (r: Result<
    InputSelector,
    ConversionError,
>)
    ensures
        modeled(r) == input_resolution(format_str@, lowered@),
        r matches Ok(InputSelector::Explicit(format)) ==> format.usable_as_input(),
        is_auto_keyword(format_str@) ==> r == Ok::<InputSelector, ConversionError>(
            InputSelector::AutoDetect,
        ),
        !is_auto_keyword(format_str@) ==> {
            &&& lowered@ == "markdown"@ || lowered@ == "md"@ ==> r == Ok::<
                InputSelector,
                ConversionError,
            >(InputSelector::Explicit(FormatId::Markdown))
            &&& lowered@ == "html"@ || lowered@ == "html5"@ ==> r == Ok::<
                InputSelector,
                ConversionError,
            >(InputSelector::Explicit(FormatId::Html5))
            &&& lowered@ == "latex"@ || lowered@ == "tex"@ ==> r == Ok::<
                InputSelector,
                ConversionError,
            >(InputSelector::Explicit(FormatId::Latex))
            &&& lowered@ == "rst"@ ==> r == Ok::<InputSelector, ConversionError>(
                InputSelector::Explicit(FormatId::Rst),
            )
            &&& lowered@ == "docx"@ ==> r == Ok::<InputSelector, ConversionError>(
                InputSelector::Explicit(FormatId::Docx),
            )
            &&& lowered@ == "epub"@ ==> r == Ok::<InputSelector, ConversionError>(
                InputSelector::Explicit(FormatId::Epub),
            )
            &&& input_alias(lowered@) is None ==> modeled(r) == Err::<InputSelector, ErrorModel>(
                ErrorModel::UnsupportedFormat { role: FormatRole::Input, raw: format_str@ },
            )
        },
{
    proof {
        input_alias_table();
    }
    if eq_ignore_ascii_case(format_str, "auto") {
        Ok(InputSelector::AutoDetect)
    } else {
        match lookup_input_alias(lowered) {
            Some(format) => Ok(InputSelector::Explicit(format)),
            None => Err(
                ConversionError::UnsupportedFormat {
                    role: FormatRole::Input,
                    raw: String::from_str(format_str),
                },
            ),
        }
    }
}

/// Resolves an output format string, ignoring case.
pub fn parse_output_format(format_str: &str) -> (r: Result<FormatId, ConversionError>)
    ensures
        modeled(r) == resolve_output(format_str@),
        match output_alias(unicode_lowercase(format_str@)) {
            Some(OutputAlias::Supported(format)) => r == Ok::<FormatId, ConversionError>(format),
            Some(OutputAlias::Unsupported(target)) => modeled(r) == Err::<FormatId, ErrorModel>(
                ErrorModel::RecognizedUnsupportedFormat {
                    raw: format_str@,
                    remediation: target.spec_remediation(),
                },
            ),
            None => modeled(r) == Err::<FormatId, ErrorModel>(
                ErrorModel::UnsupportedFormat { role: FormatRole::Output, raw: format_str@ },
            ),
        },
{
    let lowered = to_lowercase(format_str);
    classify_output_format(format_str, lowered.as_str())
}

/// Resolves an input format string, ignoring case. An absent string and
/// `auto` both ask for detection.
pub fn parse_input_format(format_str: Option<&str>) -> (r: Result<InputSelector, ConversionError>)
    ensures
        modeled(r) == resolve_input(format_str.deep_view()),
        match format_str {
            None => r == Ok::<InputSelector, ConversionError>(InputSelector::AutoDetect),
            Some(given) => if is_auto_keyword(given@) {
                r == Ok::<InputSelector, ConversionError>(InputSelector::AutoDetect)
            } else {
                match input_alias(unicode_lowercase(given@)) {
                    Some(format) => r == Ok::<InputSelector, ConversionError>(
                        InputSelector::Explicit(format),
                    ),
                    None => modeled(r) == Err::<InputSelector, ErrorModel>(
                        ErrorModel::UnsupportedFormat { role: FormatRole::Input, raw: given@ },
                    ),
                }
            },
        },
        r matches Ok(InputSelector::Explicit(format)) ==> format.usable_as_input(),
{
    match format_str {
        None => Ok(InputSelector::AutoDetect),
        Some(given) => {
            let lowered = to_lowercase(given);
            classify_input_format(given, lowered.as_str())
        },
    }
}

} // verus!
