//! The commands by which the platform unmounts a drive or shows a folder,
//! and what their runs come to. The caller runs them.

use vstd::prelude::*;
use vstd::string::StringExecFns;
use crate::platform::Platform;
use crate::text::{owned, texts};

verus! {

/// A program and its arguments.
#[derive(Debug, PartialEq, Eq)]
pub struct Command {
    pub program: String,
    pub arguments: Vec<String>,
}

/// A `Command` with its texts as characters.
pub struct CommandView {
    pub program: Seq<char>,
    pub arguments: Seq<Seq<char>>,
}

impl View for Command {
    type V = CommandView;

    open spec fn view(&self) -> CommandView {
        CommandView { program: self.program@, arguments: texts(self.arguments@) }
    }
}

/// What a run of a command left: whether its exit status was zero, and
/// what it wrote.
#[derive(Debug, PartialEq, Eq)]
pub struct CommandOutput {
    pub success: bool,
    pub stdout: String,
    pub stderr: String,
}

/// Why a command was not run, or what went wrong with it.
#[derive(Debug, PartialEq, Eq)]
pub enum SystemError {
    /// There is no such command on this platform.
    UnsupportedPlatform,
    /// The folder to show does not exist.
    FolderMissing,
    /// The program could not be started; the text says why.
    Launch(String),
    /// The unmount ended with a status other than zero.
    UnmountFailed { stderr: String, stdout: String },
}

/// A `SystemError` with its texts as characters.
pub enum SystemFailure {
    UnsupportedPlatform,
    FolderMissing,
    Launch(Seq<char>),
    UnmountFailed { stderr: Seq<char>, stdout: Seq<char> },
}

impl View for SystemError {
    type V = SystemFailure;

    open spec fn view(&self) -> SystemFailure {
        match self {
            SystemError::UnsupportedPlatform => SystemFailure::UnsupportedPlatform,
            SystemError::FolderMissing => SystemFailure::FolderMissing,
            SystemError::Launch(text) => SystemFailure::Launch(text@),
            SystemError::UnmountFailed { stderr, stdout } => SystemFailure::UnmountFailed {
                stderr: stderr@,
                stdout: stdout@,
            },
        }
    }
}

impl SystemFailure {
    /// The message of the failure.
    pub open spec fn message(self) -> Seq<char> {
        match self {
            SystemFailure::UnsupportedPlatform => "Unsupported platform"@,
            SystemFailure::FolderMissing => "Destination folder does not exist"@,
            SystemFailure::Launch(text) => text,
            SystemFailure::UnmountFailed { stderr, stdout } => "Unmount failed: "@ + stderr + " "@
                + stdout,
        }
    }
}

impl SystemError {
    /// The message of the error.
    pub fn message(&self) -> (r: String)
        ensures
            r@ == self@.message(),
    {
        match self {
            SystemError::UnsupportedPlatform => owned("Unsupported platform"),
            SystemError::FolderMissing => owned("Destination folder does not exist"),
            SystemError::Launch(text) => text.clone(),
            SystemError::UnmountFailed { stderr, stdout } => {
                let mut out = owned("Unmount failed: ");
                out.append(stderr.as_str());
                out.append(" ");
                out.append(stdout.as_str());
                out
            },
        }
    }
}

/// The script by which the Windows shell ejects the drive at `mount_point`.
pub open spec fn eject_script(mount_point: Seq<char>) -> Seq<char> {
    "(New-Object -comObject Shell.Application).Namespace(17).ParseName('"@ + mount_point
        + "').InvokeVerb('Eject')"@
}

/// The command that unmounts the drive at `mount_point`, where the platform
/// has one.
pub open spec fn unmount_command_for(platform: Platform, mount_point: Seq<char>) -> Option<
    CommandView,
> {
    match platform {
        Platform::Linux => Some(
            CommandView {
                program: "udisksctl"@,
                arguments: seq!["unmount"@, "-p"@, mount_point],
            },
        ),
        Platform::MacOs => Some(
            CommandView { program: "diskutil"@, arguments: seq!["unmount"@, mount_point] },
        ),
        Platform::Windows => Some(
            CommandView {
                program: "powershell"@,
                arguments: seq!["-Command"@, eject_script(mount_point)],
            },
        ),
        Platform::Other => None,
    }
}

/// The command that shows the folder at `path`, where the platform has one.
pub open spec fn open_command_for(platform: Platform, path: Seq<char>) -> Option<CommandView> {
    match platform {
        Platform::Linux => Some(CommandView { program: "xdg-open"@, arguments: seq![path] }),
        Platform::MacOs => Some(CommandView { program: "open"@, arguments: seq![path] }),
        Platform::Windows => Some(CommandView { program: "explorer"@, arguments: seq![path] }),
        Platform::Other => None,
    }
}

/// The view of a command or the reason why there is none.
pub open spec fn command_view(r: Result<Command, SystemError>) -> Result<
    CommandView,
    SystemFailure,
> {
    match r {
        Ok(command) => Ok(command@),
        Err(e) => Err(e@),
    }
}

/// The view of the outcome of a command.
pub open spec fn outcome_view(r: Result<(), SystemError>) -> Result<(), SystemFailure> {
    match r {
        Ok(()) => Ok(()),
        Err(e) => Err(e@),
    }
}

/// The view of a run, or of the reason why the program did not start.
pub open spec fn run_view(r: Result<CommandOutput, String>) -> Result<
    (bool, Seq<char>, Seq<char>),
    Seq<char>,
> {
    match r {
        Ok(output) => Ok((output.success, output.stdout@, output.stderr@)),
        Err(text) => Err(text@),
    }
}

/// The command that unmounts the drive at `mount_point`.
pub fn unmount_command(platform: Platform, mount_point: &str) -> (r: Result<Command, SystemError>)
    ensures
        command_view(r) == match unmount_command_for(platform, mount_point@) {
            Some(command) => Ok::<CommandView, SystemFailure>(command),
            None => Err(SystemFailure::UnsupportedPlatform),
        },
{
    let mut arguments: Vec<String> = Vec::new();
    match platform {
        Platform::Linux => {
            arguments.push(owned("unmount"));
            arguments.push(owned("-p"));
            arguments.push(owned(mount_point));
            assert(texts(arguments@) =~= seq!["unmount"@, "-p"@, mount_point@]);
            Ok(Command { program: owned("udisksctl"), arguments })
        },
        Platform::MacOs => {
            arguments.push(owned("unmount"));
            arguments.push(owned(mount_point));
            assert(texts(arguments@) =~= seq!["unmount"@, mount_point@]);
            Ok(Command { program: owned("diskutil"), arguments })
        },
        Platform::Windows => {
            let mut script = owned(
                "(New-Object -comObject Shell.Application).Namespace(17).ParseName('",
            );
            script.append(mount_point);
            script.append("').InvokeVerb('Eject')");
            arguments.push(owned("-Command"));
            arguments.push(script);
            assert(texts(arguments@) =~= seq!["-Command"@, eject_script(mount_point@)]);
            Ok(Command { program: owned("powershell"), arguments })
        },
        Platform::Other => Err(SystemError::UnsupportedPlatform),
    }
}

/// What the run of an unmount command comes to: success where the exit
/// status was zero, else a failure that carries what the command wrote.
pub fn unmount_outcome(run: Result<CommandOutput, String>) -> (r: Result<(), SystemError>)
    ensures
        outcome_view(r) == match run_view(run) {
            Err(text) => Err::<(), SystemFailure>(SystemFailure::Launch(text)),
            Ok((success, stdout, stderr)) => if success {
                Ok(())
            } else {
                Err(SystemFailure::UnmountFailed { stderr, stdout })
            },
        },
{
    match run {
        Err(text) => Err(SystemError::Launch(text)),
        Ok(output) => {
            if output.success {
                Ok(())
            } else {
                Err(SystemError::UnmountFailed { stderr: output.stderr, stdout: output.stdout })
            }
        },
    }
}

/// The command that shows the folder at `path`, given whether the folder
/// exists. A folder that does not exist is refused before the platform is
/// looked at.
pub fn open_command(platform: Platform, path: &str, folder_exists: bool) -> (r: Result<
    Command,
    SystemError,
>)
    ensures
        command_view(r) == if !folder_exists {
            Err::<CommandView, SystemFailure>(SystemFailure::FolderMissing)
        } else {
            match open_command_for(platform, path@) {
                Some(command) => Ok(command),
                None => Err(SystemFailure::UnsupportedPlatform),
            }
        },
{
    if !folder_exists {
        return Err(SystemError::FolderMissing);
    }
    let program = match platform {
        Platform::Linux => "xdg-open",
        Platform::MacOs => "open",
        Platform::Windows => "explorer",
        Platform::Other => {
            return Err(SystemError::UnsupportedPlatform);
        },
    };
    let mut arguments: Vec<String> = Vec::new();
    arguments.push(owned(path));
    assert(texts(arguments@) =~= seq![path@]);
    Ok(Command { program: owned(program), arguments })
}

/// What the run of a command that shows a folder comes to: success once
/// the program has run, whatever its exit status.
pub fn open_outcome(run: Result<CommandOutput, String>) -> (r: Result<(), SystemError>)
    ensures
        outcome_view(r) == match run_view(run) {
            Err(text) => Err::<(), SystemFailure>(SystemFailure::Launch(text)),
            Ok(_) => Ok(()),
        },
{
    match run {
        Err(text) => Err(SystemError::Launch(text)),
        Ok(_) => Ok(()),
    }
}

} // verus!
