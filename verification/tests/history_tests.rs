use doc_convert::error::{ConversionError, HistoryOperation};
use doc_convert::history::{
    first_save_step, get_history_file_path, load_history, save_history, HistoryEntry,
    HistoryLocation, ReadOutcome, SaveProgress, SaveStep,
};

fn entry(path: &str, is_success: bool, output_path: Option<&str>) -> HistoryEntry {
    HistoryEntry {
        path: path.to_string(),
        status: if is_success { "success".to_string() } else { "error".to_string() },
        message: "ok".to_string(),
        is_success,
        output_path: output_path.map(|s| s.to_string()),
    }
}

#[test]
fn the_log_lies_below_the_data_directory_and_the_identifier() {
    assert_eq!(
        get_history_file_path(Some("/home/alice/.local/share".to_string()), "com.example.app".to_string()),
        Ok(HistoryLocation {
            base_dir: "/home/alice/.local/share".to_string(),
            identifier: "com.example.app".to_string(),
            file_name: "conversion_history.json".to_string(),
        })
    );
}

#[test]
fn the_data_directory_is_carried_as_it_was_given() {
    let base = std::path::PathBuf::from("/srv/data");
    let location = get_history_file_path(Some(base.clone()), "id".to_string()).unwrap();
    assert_eq!(location.base_dir, base);
    assert_eq!(location.identifier, "id");
    assert_eq!(location.file_name, "conversion_history.json");
}

#[test]
fn without_a_data_directory_the_log_has_no_place() {
    let error = get_history_file_path::<String>(None, "com.example.app".to_string()).unwrap_err();
    assert_eq!(
        error,
        ConversionError::HistoryIoFailure {
            operation: HistoryOperation::Locate,
            diagnostic: String::new(),
        }
    );
    assert_eq!(error.message(), "无法获取基础本地数据目录");
}

#[test]
fn loading_a_missing_file_gives_the_empty_log() {
    assert_eq!(load_history(ReadOutcome::NotFound), Ok(Vec::new()));
}

#[test]
fn loading_invalid_json_gives_the_empty_log() {
    assert_eq!(load_history(ReadOutcome::Malformed), Ok(Vec::new()));
}

#[test]
fn loading_an_unreadable_file_is_an_error() {
    assert_eq!(
        load_history(ReadOutcome::Unreadable { diagnostic: "permission denied".to_string() }),
        Err(ConversionError::HistoryIoFailure {
            operation: HistoryOperation::Read,
            diagnostic: "permission denied".to_string(),
        })
    );
}

#[test]
fn loading_one_saved_entry_gives_it_back() {
    let saved = vec![HistoryEntry {
        path: "a.md".to_string(),
        status: "success".to_string(),
        message: "ok".to_string(),
        is_success: true,
        output_path: Some("a.html".to_string()),
    }];
    assert_eq!(load_history(ReadOutcome::Parsed(saved.clone())), Ok(saved));
}

#[test]
fn loading_keeps_entries_and_their_order() {
    let saved = vec![
        entry("b.md", true, Some("b.html")),
        entry("a.md", false, None),
        entry("b.md", true, Some("b.html")),
        entry("", true, Some("")),
    ];
    assert_eq!(load_history(ReadOutcome::Parsed(saved.clone())), Ok(saved));
    assert_eq!(load_history(ReadOutcome::Parsed(Vec::new())), Ok(Vec::new()));
}

#[test]
fn a_save_creates_the_directory_then_serializes_then_writes() {
    assert_eq!(first_save_step(), SaveStep::CreateDirectory);
    assert_eq!(
        save_history(SaveStep::CreateDirectory, None),
        SaveProgress::Next(SaveStep::Serialize)
    );
    assert_eq!(save_history(SaveStep::Serialize, None), SaveProgress::Next(SaveStep::Write));
    assert_eq!(save_history(SaveStep::Write, None), SaveProgress::Done(Ok(())));
}

#[test]
fn a_save_without_failures_is_done_after_three_steps() {
    let mut step = first_save_step();
    let mut taken = vec![step];
    loop {
        match save_history(step, None) {
            SaveProgress::Next(next) => {
                step = next;
                taken.push(step);
            }
            SaveProgress::Done(result) => {
                assert_eq!(result, Ok(()));
                break;
            }
        }
        assert!(taken.len() <= 3);
    }
    assert_eq!(taken, vec![SaveStep::CreateDirectory, SaveStep::Serialize, SaveStep::Write]);
}

#[test]
fn a_failed_step_ends_the_save_and_is_named() {
    let cases = [
        (SaveStep::CreateDirectory, HistoryOperation::CreateDirectory),
        (SaveStep::Serialize, HistoryOperation::Serialize),
        (SaveStep::Write, HistoryOperation::Write),
    ];
    for (step, operation) in cases {
        assert_eq!(
            save_history(step, Some("disk full".to_string())),
            SaveProgress::Done(Err(ConversionError::HistoryIoFailure {
                operation,
                diagnostic: "disk full".to_string(),
            }))
        );
    }
}
