//! Opening a path with the desktop: what is reported when the launch failed.
//!
//! The launch itself is made outside this library. Its outcome is passed on
//! without interpretation: a success stays a success, and a failure becomes
//! a message that names the path and holds the launcher's diagnostic.

use vstd::prelude::*;
use vstd::string::*;

verus! {

/// A launch of the desktop's handler for a path.
#[derive(Clone, Copy, Debug, PartialEq, Eq, Structural)]
pub enum ShellAction {
    /// Open a file with its default application.
    OpenFile,
    /// Show a path in the file manager.
    ShowInFolder,
}

/// How the message for a failed launch begins.
pub open spec fn launch_failure_prefix(action: ShellAction) -> Seq<char> {
    match action {
        ShellAction::OpenFile => "无法打开文件 '"@,
        ShellAction::ShowInFolder => "无法打开文件夹 '"@,
    }
}

/// The message for a failed launch: the path in quotes, then the diagnostic.
pub open spec fn launch_failure_message(
    action: ShellAction,
    path: Seq<char>,
    diagnostic: Seq<char>,
) -> Seq<char> {
    launch_failure_prefix(action) + path + "': "@ + diagnostic
}

/// The result of a launch, given the diagnostic of a failed one.
pub open spec fn launch_result(action: ShellAction, path: Seq<char>, failure: Option<Seq<char>>)
    -> Result<(), Seq<char>> {
    match failure {
        None => Ok(()),
        Some(diagnostic) => Err(launch_failure_message(action, path, diagnostic)),
    }
}

/// A result whose error is a message, with the message as its characters.
pub open spec fn modeled_launch(r: Result<(), String>) -> Result<(), Seq<char>> {
    match r {
        Ok(()) => Ok(()),
        Err(message) => Err(message@),
    }
}

/// Reports a launch of `action` on `path`. `failure` holds the diagnostic
/// of the launcher if the launch failed.
pub fn report_launch(action: ShellAction, path: &str, failure: Option<String>) -> (r: Result<
    (),
    String,
>)
    ensures
        modeled_launch(r) == launch_result(
            action,
            path@,
            failure.deep_view(),
        ),
{
    match failure {
        None => Ok(()),
        Some(diagnostic) => {
            let mut message = String::from_str(
                match action {
                    ShellAction::OpenFile => "无法打开文件 '",
                    ShellAction::ShowInFolder => "无法打开文件夹 '",
                },
            );
            message.append(path);
            message.append("': ");
            message.append(diagnostic.as_str());
            Err(message)
        },
    }
}

/// Reports an attempt to open the file at `path` with its default
/// application.
pub fn open_file_in_default_app(path: &str, failure: Option<String>) -> (r: Result<(), String>)
    ensures
        modeled_launch(r) == launch_result(
            ShellAction::OpenFile,
            path@,
            failure.deep_view(),
        ),
{
    report_launch(ShellAction::OpenFile, path, failure)
}

/// Reports an attempt to show `path` in the file manager.
pub fn show_in_folder(path: &str, failure: Option<String>) -> (r: Result<(), String>)
    ensures
        modeled_launch(r) == launch_result(
            ShellAction::ShowInFolder,
            path@,
            failure.deep_view(),
        ),
{
    report_launch(ShellAction::ShowInFolder, path, failure)
}

} // verus!
