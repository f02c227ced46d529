use doc_convert::convert::{
    convert_content, convert_file, finish, preview_file, ConversionContentOptions,
    ConversionOptions, PreviewOptions,
};
use doc_convert::engine::{EngineOutput, EngineRequest, InputTransport, OutputTransport};
use doc_convert::error::{ConversionError, FormatRole, Operation};
use doc_convert::format::{FormatId, UnsupportedTarget};

fn file_options(output_format: &str, input_format: Option<&str>) -> ConversionOptions {
    ConversionOptions {
        input_path: "notes.md".to_string(),
        output_format: output_format.to_string(),
        output_path: "out/notes.html".to_string(),
        input_format: input_format.map(|s| s.to_string()),
    }
}

fn file_request(input_format: Option<FormatId>, output_format: FormatId) -> EngineRequest {
    EngineRequest {
        input: InputTransport::File { path: "notes.md".to_string() },
        input_format,
        output: OutputTransport::File { path: "out/notes.html".to_string() },
        output_format,
        standalone: true,
    }
}

fn preview_request() -> EngineRequest {
    EngineRequest {
        input: InputTransport::File { path: "notes.md".to_string() },
        input_format: None,
        output: OutputTransport::Buffer,
        output_format: FormatId::Html5,
        standalone: true,
    }
}

#[test]
fn converting_a_missing_file_reports_input_not_found() {
    let options = ConversionOptions {
        input_path: "missing.md".to_string(),
        output_format: "html".to_string(),
        output_path: "out.html".to_string(),
        input_format: None,
    };
    assert_eq!(
        convert_file(options, false),
        Err(ConversionError::InputNotFound { path: "missing.md".to_string() })
    );
}

#[test]
fn a_missing_input_is_reported_before_any_format_error() {
    let missing = Err(ConversionError::InputNotFound { path: "notes.md".to_string() });
    assert_eq!(convert_file(file_options("nonsense", None), false), missing);
    assert_eq!(convert_file(file_options("pdf", None), false), missing);
    assert_eq!(convert_file(file_options("html", Some("nonsense")), false), missing);
    assert_eq!(convert_file(file_options("nonsense", Some("nonsense")), false), missing);
    let preview = PreviewOptions {
        input_path: "notes.md".to_string(),
        input_format: Some("nonsense".to_string()),
    };
    assert_eq!(preview_file(preview, false), missing);
}

#[test]
fn a_format_error_does_not_hide_behind_an_existing_input() {
    assert_eq!(
        convert_file(file_options("nonsense", None), true),
        Err(ConversionError::UnsupportedFormat {
            role: FormatRole::Output,
            raw: "nonsense".to_string(),
        })
    );
}

#[test]
fn file_conversion_without_input_format_lets_the_engine_detect() {
    assert_eq!(
        convert_file(file_options("html", None), true),
        Ok(file_request(None, FormatId::Html5))
    );
    assert_eq!(
        convert_file(file_options("DOCX", Some("auto")), true),
        Ok(file_request(None, FormatId::Docx))
    );
    assert_eq!(
        convert_file(file_options("odt", Some("AUTO")), true),
        Ok(file_request(None, FormatId::OpenDocument))
    );
}

#[test]
fn file_conversion_with_input_format_tells_the_engine() {
    assert_eq!(
        convert_file(file_options("latex", Some("MD")), true),
        Ok(file_request(Some(FormatId::Markdown), FormatId::Latex))
    );
    assert_eq!(
        convert_file(file_options("epub3", Some("html")), true),
        Ok(file_request(Some(FormatId::Html5), FormatId::Epub))
    );
}

#[test]
fn file_conversion_always_asks_for_a_standalone_document() {
    for (output, input) in [("html", None), ("md", Some("rst")), ("tex", Some("auto"))] {
        let request = convert_file(file_options(output, input), true).unwrap();
        assert!(request.standalone);
        assert_eq!(request.operation(), Operation::ConvertFile);
    }
}

#[test]
fn file_conversion_refuses_unsupported_output_formats() {
    assert_eq!(
        convert_file(file_options("PDF", Some("md")), true),
        Err(ConversionError::RecognizedUnsupportedFormat {
            raw: "PDF".to_string(),
            remediation: UnsupportedTarget::Pdf.remediation(),
        })
    );
    assert_eq!(
        convert_file(file_options("html4", None), true),
        Err(ConversionError::RecognizedUnsupportedFormat {
            raw: "html4".to_string(),
            remediation: UnsupportedTarget::Html4.remediation(),
        })
    );
}

#[test]
fn file_conversion_refuses_unknown_input_formats() {
    assert_eq!(
        convert_file(file_options("html", Some("odt")), true),
        Err(ConversionError::UnsupportedFormat {
            role: FormatRole::Input,
            raw: "odt".to_string(),
        })
    );
}

#[test]
fn the_output_format_is_resolved_before_the_input_format() {
    assert_eq!(
        convert_file(file_options("Bad Output", Some("Bad Input")), true),
        Err(ConversionError::UnsupportedFormat {
            role: FormatRole::Output,
            raw: "Bad Output".to_string(),
        })
    );
}

#[test]
fn content_conversion_reads_markdown_from_memory() {
    let options = ConversionContentOptions {
        input_content: "# Title\n\ntext".to_string(),
        output_format: "Docx".to_string(),
        output_path: "title.docx".to_string(),
    };
    let expected = EngineRequest {
        input: InputTransport::Buffer { content: "# Title\n\ntext".to_string() },
        input_format: Some(FormatId::Markdown),
        output: OutputTransport::File { path: "title.docx".to_string() },
        output_format: FormatId::Docx,
        standalone: true,
    };
    let request = convert_content(options).unwrap();
    assert_eq!(request, expected);
    assert_eq!(request.operation(), Operation::ConvertContent);
}

#[test]
fn content_conversion_refuses_bad_output_formats() {
    let options = |output_format: &str| ConversionContentOptions {
        input_content: String::new(),
        output_format: output_format.to_string(),
        output_path: "x".to_string(),
    };
    assert_eq!(
        convert_content(options("docy")),
        Err(ConversionError::UnsupportedFormat {
            role: FormatRole::Output,
            raw: "docy".to_string(),
        })
    );
    assert_eq!(
        convert_content(options("pdf")),
        Err(ConversionError::RecognizedUnsupportedFormat {
            raw: "pdf".to_string(),
            remediation: UnsupportedTarget::Pdf.remediation(),
        })
    );
}

#[test]
fn preview_always_asks_for_html5_in_a_buffer() {
    for input_format in [None, Some("auto"), Some("md"), Some("docx"), Some("EPUB")] {
        let options = PreviewOptions {
            input_path: "notes.md".to_string(),
            input_format: input_format.map(|s| s.to_string()),
        };
        let request = preview_file(options, true).unwrap();
        assert_eq!(request.output_format, FormatId::Html5);
        assert_eq!(request.output, OutputTransport::Buffer);
        assert_eq!(request.input, InputTransport::File { path: "notes.md".to_string() });
        assert!(request.standalone);
        assert_eq!(request.operation(), Operation::Preview);
    }
}

#[test]
fn preview_resolves_the_input_format() {
    let options = |input_format: Option<&str>| PreviewOptions {
        input_path: "notes.md".to_string(),
        input_format: input_format.map(|s| s.to_string()),
    };
    assert_eq!(preview_file(options(None), true), Ok(preview_request()));
    assert_eq!(preview_file(options(Some("Auto")), true), Ok(preview_request()));
    let mut told = preview_request();
    told.input_format = Some(FormatId::Latex);
    assert_eq!(preview_file(options(Some("TeX")), true), Ok(told));
    assert_eq!(
        preview_file(options(Some("odt")), true),
        Err(ConversionError::UnsupportedFormat {
            role: FormatRole::Input,
            raw: "odt".to_string(),
        })
    );
}

#[test]
fn a_written_file_is_confirmed_with_its_path() {
    let request = file_request(None, FormatId::Html5);
    assert_eq!(
        finish(&request, Ok(EngineOutput::Written)),
        Ok("转换成功! 输出文件: out/notes.html".to_string())
    );
    // What the engine hands back for a file sink is not looked at.
    assert_eq!(
        finish(&request, Ok(EngineOutput::Buffer(vec![0xff]))),
        Ok("转换成功! 输出文件: out/notes.html".to_string())
    );
}

#[test]
fn an_engine_failure_is_passed_on_with_its_diagnostic() {
    let file = file_request(None, FormatId::Html5);
    assert_eq!(
        finish(&file, Err("exit_code: Some(1)".to_string())),
        Err(ConversionError::EngineExecutionFailure {
            during: Operation::ConvertFile,
            diagnostic: "exit_code: Some(1)".to_string(),
        })
    );
    let content = EngineRequest {
        input: InputTransport::Buffer { content: "x".to_string() },
        input_format: Some(FormatId::Markdown),
        output: OutputTransport::File { path: "x.html".to_string() },
        output_format: FormatId::Html5,
        standalone: true,
    };
    assert_eq!(
        finish(&content, Err(String::new())),
        Err(ConversionError::EngineExecutionFailure {
            during: Operation::ConvertContent,
            diagnostic: String::new(),
        })
    );
    assert_eq!(
        finish(&preview_request(), Err("no pandoc".to_string())),
        Err(ConversionError::EngineExecutionFailure {
            during: Operation::Preview,
            diagnostic: "no pandoc".to_string(),
        })
    );
}

#[test]
fn a_preview_decodes_the_buffer() {
    let html = "<p>héllo, 世界 🌍</p>";
    assert_eq!(
        finish(&preview_request(), Ok(EngineOutput::Buffer(html.as_bytes().to_vec()))),
        Ok(html.to_string())
    );
    assert_eq!(finish(&preview_request(), Ok(EngineOutput::Buffer(Vec::new()))), Ok(String::new()));
}

#[test]
fn a_preview_decodes_the_first_and_last_scalar_of_each_width() {
    let cases: [(&[u8], char); 9] = [
        (&[0x00], '\u{0}'),
        (&[0x7f], '\u{7f}'),
        (&[0xc2, 0x80], '\u{80}'),
        (&[0xdf, 0xbf], '\u{7ff}'),
        (&[0xe0, 0xa0, 0x80], '\u{800}'),
        (&[0xed, 0x9f, 0xbf], '\u{d7ff}'),
        (&[0xee, 0x80, 0x80], '\u{e000}'),
        (&[0xf0, 0x90, 0x80, 0x80], '\u{10000}'),
        (&[0xf4, 0x8f, 0xbf, 0xbf], '\u{10ffff}'),
    ];
    for (bytes, scalar) in cases {
        assert_eq!(
            finish(&preview_request(), Ok(EngineOutput::Buffer(bytes.to_vec()))),
            Ok(scalar.to_string())
        );
    }
}

#[test]
fn a_preview_that_is_not_utf8_fails_to_decode() {
    let cases: [&[u8]; 11] = [
        &[0xff],
        &[0x80],
        &[b'a', 0xc3],
        &[0xe4, 0xb8],
        &[0xc0, 0xaf],
        &[0xc1, 0xbf],
        &[0xe0, 0x9f, 0xbf],
        &[0xed, 0xa0, 0x80],
        &[0xf0, 0x8f, 0xbf, 0xbf],
        &[0xf4, 0x90, 0x80, 0x80],
        &[0xf8, 0x88, 0x80, 0x80, 0x80],
    ];
    for bytes in cases {
        assert_eq!(
            finish(&preview_request(), Ok(EngineOutput::Buffer(bytes.to_vec()))),
            Err(ConversionError::OutputDecodeFailure)
        );
    }
}

#[test]
fn a_preview_never_returns_a_write_confirmation() {
    assert_eq!(
        finish(&preview_request(), Ok(EngineOutput::Written)),
        Err(ConversionError::UnexpectedEngineOutput)
    );
}
