//! From a parsed command line to the command that is run, and what the user
//! is told.

use vstd::prelude::*;
use vstd::string::StringExecFns;

verus! {

/// Name of the subcommand that removes the credential file.
pub const LOGOUT: &'static str = "logout";

/// Name of the subcommand that mounts the filesystem.
pub const MOUNT: &'static str = "mount";

/// Log filter used when additional logging was asked for.
pub const DEBUG_LOG: &'static str =
    "hyper::client=error,rustls::client_hs=error,hyper::http=error,hyper::net=error,debug";

/// Log filter used otherwise.
pub const INFO_LOG: &'static str =
    "hyper::client=error,rustls::client_hs=error,hyper::http=error,hyper::net=error,fuse::session=error,info";

/// The command that a command line selects.
#[derive(Debug, PartialEq, Eq)]
pub enum Command {
    /// Remove the credential file.
    Logout,
    /// Mount the filesystem at `mountpoint` and serve it until interrupted.
    Mount { mountpoint: String },
    /// Do nothing.
    Nothing,
}

/// A command as a mathematical value.
pub enum CommandView {
    Logout,
    Mount { mountpoint: Seq<char> },
    Nothing,
}

impl View for Command {
    type V = CommandView;

    open spec fn view(&self) -> CommandView {
        match *self {
            Command::Logout => CommandView::Logout,
            Command::Mount { mountpoint } => CommandView::Mount { mountpoint: mountpoint@ },
            Command::Nothing => CommandView::Nothing,
        }
    }
}

/// The command for the subcommand `name`, where one was given, and the
/// `mountpoint` argument, which `mount` comes with.
pub open spec fn selected(name: Option<Seq<char>>, mountpoint: Option<Seq<char>>) -> CommandView {
    match name {
        Some(name) => if name == LOGOUT@ {
            CommandView::Logout
        } else if name == MOUNT@ {
            CommandView::Mount { mountpoint: mountpoint->0 }
        } else {
            CommandView::Nothing
        },
        None => CommandView::Nothing,
    }
}

/// Picks the log filter for the configured verbosity.
pub fn log_filter(debug: bool) -> (filter: &'static str)
    ensures
        filter@ == if debug {
            DEBUG_LOG@
        } else {
            INFO_LOG@
        },
{
    if debug {
        DEBUG_LOG
    } else {
        INFO_LOG
    }
}

/// Selects the command to run.
///
/// `logout` and `mount` are the two subcommands; any other, or none, selects
/// nothing. `mount` takes the directory to mount at, which the command line
/// must give.
pub fn select_command(subcommand: Option<&str>, mountpoint: Option<&str>) -> (command: Command)
    requires
        subcommand matches Some(name) && name@ == MOUNT@ ==> mountpoint is Some,
    ensures
        command@ == selected(
            match subcommand {
                Some(name) => Some(name@),
                None => None,
            },
            match mountpoint {
                Some(path) => Some(path@),
                None => None,
            },
        ),
{
    match subcommand {
        Some(name) => {
            let name = name.to_owned();
            if name == LOGOUT.to_owned() {
                Command::Logout
            } else if name == MOUNT.to_owned() {
                Command::Mount { mountpoint: mountpoint.unwrap().to_owned() }
            } else {
                Command::Nothing
            }
        },
        None => Command::Nothing,
    }
}

/// What the user is told after the credential file `filename` was to be
/// removed: that it is gone, or, with the `failure` that was met, that it
/// could not be removed.
pub fn removal_report(filename: &str, failure: Option<&str>) -> (report: String)
    ensures
        report@ == match failure {
            None => "Successfully removed "@ + filename@,
            Some(reason) => "Could not remove "@ + filename@ + ": "@ + reason@,
        },
{
    match failure {
        None => {
            let mut report = "Successfully removed ".to_owned();
            report.append(filename);
            report
        },
        Some(reason) => {
            let mut report = "Could not remove ".to_owned();
            report.append(filename);
            report.append(": ");
            report.append(reason);
            report
        },
    }
}

} // verus!
