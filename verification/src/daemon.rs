//! What the daemon decides around its engine: with which code it exits when
//! it cannot start, and which changes in the folder of the configuration
//! make it read the configuration anew.

use vstd::prelude::*;

verus! {

/// The code of a run that ended well.
pub const OK: i32 = 0;

/// The code for a service that is not to be had.
pub const UNAVAILABLE: i32 = 69;

/// The code for a failure of the operating system.
pub const OSERR: i32 = 71;

/// The code for a system file that is missing or cannot be made.
pub const OSFILE: i32 = 72;

/// The code for a failure of input or output.
pub const IOERR: i32 = 74;

/// The code for a failure that may pass.
pub const TEMPFAIL: i32 = 75;

/// The code for a lack of permission.
pub const NOPERM: i32 = 77;

/// Why the daemon could not start.
#[derive(Clone, Copy, Debug, PartialEq, Eq, Structural)]
pub enum StartupFailure {
    /// The signal of termination is not known to the system.
    NoSuchSignal,
    /// The signal of termination is handled already.
    MultipleHandlers,
    /// The handler of the signal could not be set.
    SignalSystem,
    /// The place of the configuration has no folder above it.
    ConfigWithoutFolder,
    /// The folder of the configuration could not be made.
    ConfigFolder,
    /// The folder of the configuration could not be watched.
    ConfigWatch,
    /// There is a socket already.
    SocketExists,
    /// It could not be seen whether there is a socket.
    SocketCheck,
    /// The socket could not be bound.
    SocketBind,
    /// The socket could not be opened to all users.
    SocketPermissions,
}

/// The code that the daemon exits with for each failure to start.
pub open spec fn code_of(failure: StartupFailure) -> i32 {
    match failure {
        StartupFailure::NoSuchSignal => OSERR,
        StartupFailure::MultipleHandlers => UNAVAILABLE,
        StartupFailure::SignalSystem => IOERR,
        StartupFailure::ConfigWithoutFolder => UNAVAILABLE,
        StartupFailure::ConfigFolder => IOERR,
        StartupFailure::ConfigWatch => IOERR,
        StartupFailure::SocketExists => TEMPFAIL,
        StartupFailure::SocketCheck => IOERR,
        StartupFailure::SocketBind => OSFILE,
        StartupFailure::SocketPermissions => NOPERM,
    }
}

/// The code that the daemon exits with where it could not start.
pub fn exit_code(failure: StartupFailure) -> (r: i32)
    ensures
        r == code_of(failure),
        r != 0,
{
    match failure {
        StartupFailure::NoSuchSignal => OSERR,
        StartupFailure::MultipleHandlers => UNAVAILABLE,
        StartupFailure::SignalSystem => IOERR,
        StartupFailure::ConfigWithoutFolder => UNAVAILABLE,
        StartupFailure::ConfigFolder => IOERR,
        StartupFailure::ConfigWatch => IOERR,
        StartupFailure::SocketExists => TEMPFAIL,
        StartupFailure::SocketCheck => IOERR,
        StartupFailure::SocketBind => OSFILE,
        StartupFailure::SocketPermissions => NOPERM,
    }
}

/// The code that the daemon exits with when it is told to end.
pub fn exit_shutdown() -> (r: i32)
    ensures
        r == 0,
{
    OK
}

/// What happened in the folder of the configuration.
#[derive(Clone, Copy, Debug, PartialEq, Eq, Structural)]
pub enum FileChange {
    /// A file was made.
    Created,
    /// The content of a file was changed.
    Modified,
    /// A file was taken away.
    Removed,
    /// Anything else.
    Other,
}

/// How long the daemon waits after a change before it reads the
/// configuration, in milliseconds, so that changes that come close together
/// are read once.
pub const CONFIG_GRACE_PERIOD: u64 = 333;

/// Whether a change makes the daemon read its configuration anew: a file was
/// made, changed or taken away, and it is the file of the configuration and
/// no other.
pub open spec fn concerns(change: FileChange, paths: Seq<Seq<char>>, config: Seq<char>) -> bool {
    !(change is Other) && paths == seq![config]
}

/// The wait after which the configuration is read anew, where the change
/// makes the daemon read it.
pub fn incoming_config_fs_event(change: FileChange, paths: &Vec<String>, config: &str) -> (r:
    Option<u64>)
    ensures
        r == (if concerns(change, paths.deep_view(), config@) {
            Some(CONFIG_GRACE_PERIOD)
        } else {
            None
        }),
{
    let known = match change {
        FileChange::Other => false,
        _ => true,
    };
    if known && paths.len() == 1 && crate::text::same_text(paths[0].as_str(), config) {
        assert(paths.deep_view() =~= seq![config@]);
        Some(CONFIG_GRACE_PERIOD)
    } else {
        assert(paths.deep_view() == seq![config@] ==> paths.deep_view().len() == 1
            && paths.deep_view()[0] == config@);
        None
    }
}

} // verus!
