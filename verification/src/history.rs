//! The log of past conversions: where it is kept, how a load is judged and
//! in which order a save proceeds.
//!
//! The log is one JSON document that is read and rewritten whole. Reading,
//! parsing, serializing and writing happen outside this library; what is
//! decided here is what each of their outcomes means.

use crate::error::{ConversionError, ErrorModel, HistoryOperation};
use vstd::prelude::*;
use vstd::string::*;

verus! {

/// One past conversion.
#[derive(Clone, Debug, PartialEq, Eq)]
pub struct HistoryEntry {
    /// The input path, or what stood for it.
    pub path: String,
    pub status: String,
    pub message: String,
    pub is_success: bool,
    pub output_path: Option<String>,
}

/// Where the log is kept: the file `file_name` in the directory
/// `identifier` below `base_dir`. The base directory is carried as the host
/// gave it and is never looked into.
#[derive(Clone, Debug, PartialEq, Eq)]
pub struct HistoryLocation<B> {
    pub base_dir: B,
    pub identifier: String,
    pub file_name: String,
}

/// The name of the file that holds the log.
pub open spec fn history_file_name() -> Seq<char> {
    "conversion_history.json"@
}

/// What an attempt to read and parse the log ended with.
#[derive(Clone, Debug, PartialEq, Eq)]
pub enum ReadOutcome {
    /// There is no file.
    NotFound,
    /// The file is there and could not be read.
    Unreadable { diagnostic: String },
    /// The file was read and does not hold a log.
    Malformed,
    /// The file was read and holds these entries.
    Parsed(Vec<HistoryEntry>),
}

/// A step of a save.
#[derive(Clone, Copy, Debug, PartialEq, Eq, Structural)]
pub enum SaveStep {
    /// Make sure that the directory of the log exists.
    CreateDirectory,
    /// Turn the whole log into pretty-printed JSON.
    Serialize,
    /// Overwrite the file with the JSON, in one write.
    Write,
}

/// How a save goes on after a step.
#[derive(Debug, PartialEq, Eq)]
pub enum SaveProgress {
    /// This step is to be taken next.
    Next(SaveStep),
    /// The save is over, with this result.
    Done(Result<(), ConversionError>),
}

impl SaveStep {
    /// The operation that is named when this step fails.
    pub open spec fn operation(self) -> HistoryOperation {
        match self {
            SaveStep::CreateDirectory => HistoryOperation::CreateDirectory,
            SaveStep::Serialize => HistoryOperation::Serialize,
            SaveStep::Write => HistoryOperation::Write,
        }
    }

    /// The step that follows this one, if any.
    pub open spec fn successor(self) -> Option<SaveStep> {
        match self {
            SaveStep::CreateDirectory => Some(SaveStep::Serialize),
            SaveStep::Serialize => Some(SaveStep::Write),
            SaveStep::Write => None,
        }
    }
}

/// What follows a step of a save: a failure ends the save with an error
/// that names the step and holds the diagnostic; a success leads to the
/// next step, and after the last step the save is done.
pub open spec fn save_transition(step: SaveStep, failure: Option<String>) -> SaveProgress {
    match failure {
        Some(diagnostic) => SaveProgress::Done(
            Err(ConversionError::HistoryIoFailure { operation: step.operation(), diagnostic }),
        ),
        None => match step.successor() {
            Some(next) => SaveProgress::Next(next),
            None => SaveProgress::Done(Ok(())),
        },
    }
}

/// Where a save stands `taken` steps after `progress`, if none of the
/// steps fails.
pub open spec fn undisturbed_save(progress: SaveProgress, taken: nat) -> SaveProgress
    decreases taken,
{
    if taken == 0 {
        progress
    } else {
        match progress {
            SaveProgress::Next(step) => undisturbed_save(
                save_transition(step, None),
                (taken - 1) as nat,
            ),
            SaveProgress::Done(result) => progress,
        }
    }
}

/// Derives where the log is kept from the local data directory of the user
/// and the identifier of the installation.
///
/// Without a data directory there is no place for the log, and the
/// operation fails.
pub fn get_history_file_path<B>(base_dir: Option<B>, identifier: String) -> (r: Result<
    HistoryLocation<B>,
    ConversionError,
>)
    ensures
        base_dir is None ==> (r matches Err(e) && e@ == (ErrorModel::HistoryIoFailure {
            operation: HistoryOperation::Locate,
            diagnostic: Seq::<char>::empty(),
        })),
        base_dir matches Some(base) ==> (r matches Ok(location) && location.base_dir == base
            && location.identifier == identifier && location.file_name@ == history_file_name()),
{
    match base_dir {
        None => Err(
            ConversionError::HistoryIoFailure {
                operation: HistoryOperation::Locate,
                diagnostic: String::new(),
            },
        ),
        Some(base) => Ok(
            HistoryLocation {
                base_dir: base,
                identifier,
                file_name: String::from_str("conversion_history.json"),
            },
        ),
    }
}

/// Judges what an attempt to read the log ended with.
///
/// A missing file is the state before the first save, and a file that does
/// not hold a log is taken for a damaged one: both give the empty log. A
/// file that could not be read is an error. Entries that were parsed are
/// returned as they are, in their order.
pub fn load_history(outcome: ReadOutcome) -> (r: Result<Vec<HistoryEntry>, ConversionError>)
    ensures
        outcome is NotFound || outcome is Malformed ==> (r matches Ok(log) && log@
            == Seq::<HistoryEntry>::empty()),
        outcome matches ReadOutcome::Unreadable { diagnostic } ==> (r matches Err(e) && e == (
            ConversionError::HistoryIoFailure { operation: HistoryOperation::Read, diagnostic })),
        outcome matches ReadOutcome::Parsed(entries) ==> (r matches Ok(log) && log == entries),
{
    match outcome {
        ReadOutcome::NotFound => Ok(Vec::new()),
        ReadOutcome::Unreadable { diagnostic } => Err(
            ConversionError::HistoryIoFailure { operation: HistoryOperation::Read, diagnostic },
        ),
        ReadOutcome::Malformed => Ok(Vec::new()),
        ReadOutcome::Parsed(entries) => Ok(entries),
    }
}

/// The step that a save begins with.
pub fn first_save_step() -> (r: SaveStep)
    ensures
        r == SaveStep::CreateDirectory,
{
    SaveStep::CreateDirectory
}

/// Says how a save goes on after `step`. `failure` holds the diagnostic of
/// the step if it failed.
pub fn save_history(step: SaveStep, failure: Option<String>) -> (r: SaveProgress)
    ensures
        r == save_transition(step, failure),
{
    match failure {
        Some(diagnostic) => SaveProgress::Done(
            Err(
                ConversionError::HistoryIoFailure {
                    operation: match step {
                        SaveStep::CreateDirectory => HistoryOperation::CreateDirectory,
                        SaveStep::Serialize => HistoryOperation::Serialize,
                        SaveStep::Write => HistoryOperation::Write,
                    },
                    diagnostic,
                },
            ),
        ),
        None => match step {
            SaveStep::CreateDirectory => SaveProgress::Next(SaveStep::Serialize),
            SaveStep::Serialize => SaveProgress::Next(SaveStep::Write),
            SaveStep::Write => SaveProgress::Done(Ok(())),
        },
    }
}

/// A save whose steps all succeed creates the directory, serializes the
/// log, writes the file, and is then done without an error: three steps, in
/// this order, and no fourth.
pub proof fn undisturbed_save_takes_three_steps()
    ensures
        undisturbed_save(SaveProgress::Next(SaveStep::CreateDirectory), 0)
            == SaveProgress::Next(SaveStep::CreateDirectory),
        undisturbed_save(SaveProgress::Next(SaveStep::CreateDirectory), 1)
            == SaveProgress::Next(SaveStep::Serialize),
        undisturbed_save(SaveProgress::Next(SaveStep::CreateDirectory), 2)
            == SaveProgress::Next(SaveStep::Write),
        forall|taken: nat|
            taken >= 3 ==> #[trigger] undisturbed_save(
                SaveProgress::Next(SaveStep::CreateDirectory),
                taken,
            ) == SaveProgress::Done(Ok(())),
{
    reveal_with_fuel(undisturbed_save, 5);
    assert forall|taken: nat| taken >= 3 implies #[trigger] undisturbed_save(
        SaveProgress::Next(SaveStep::CreateDirectory),
        taken,
    ) == SaveProgress::Done(Ok(())) by {
        assert(undisturbed_save(SaveProgress::Done(Ok(())), (taken - 3) as nat)
            == SaveProgress::Done(Ok(())));
    }
}

} // verus!
