//! What the user configured, and the registry command that makes the
//! launcher start with the session.

use crate::launcher::{CommandLine, CommandLineView};
use vstd::prelude::*;
use vstd::string::StringExecFns;

verus! {

/// Name under which the launcher is entered for the start of the session.
pub const AUTOSTART_APP_NAME: &'static str = "RustyLeague";

/// Registry key that lists what starts with the user's session.
pub const AUTOSTART_REGISTRY_KEY: &'static str =
    "HKCU\\Software\\Microsoft\\Windows\\CurrentVersion\\Run";

/// Program that edits the registry.
pub const REGISTRY_PROGRAM: &'static str = "reg";

/// What is reported when the entry could not be added.
pub const AUTOSTART_FAILURE: &'static str = "Failed to add registry entry";

/// The settings of the launcher.
#[derive(Debug)]
pub struct Settings {
    pub riot_client_path: String,
    pub minimalist_mode: bool,
    pub start_with_windows: bool,
}

/// What [`Settings`] hold, the path as a sequence of characters.
pub struct SettingsView {
    pub riot_client_path: Seq<char>,
    pub minimalist_mode: bool,
    pub start_with_windows: bool,
}

impl View for Settings {
    type V = SettingsView;

    open spec fn view(&self) -> SettingsView {
        SettingsView {
            riot_client_path: self.riot_client_path@,
            minimalist_mode: self.minimalist_mode,
            start_with_windows: self.start_with_windows,
        }
    }
}

impl Clone for Settings {
    fn clone(&self) -> (copy: Self)
        ensures
            copy@ == self@,
    {
        Settings {
            riot_client_path: self.riot_client_path.clone(),
            minimalist_mode: self.minimalist_mode,
            start_with_windows: self.start_with_windows,
        }
    }
}

impl Default for Settings {
    /// No path, and both switches off.
    fn default() -> (settings: Self)
        ensures
            settings@ == (SettingsView {
                riot_client_path: Seq::empty(),
                minimalist_mode: false,
                start_with_windows: false,
            }),
    {
        Settings {
            riot_client_path: String::new(),
            minimalist_mode: false,
            start_with_windows: false,
        }
    }
}

/// `path` between double quotes.
pub open spec fn quoted(path: Seq<char>) -> Seq<char> {
    seq!['"'] + path + seq!['"']
}

/// The command that enters the executable at `exe_path` for the start of
/// the session, or that strikes the entry.
pub open spec fn autostart_plan(enable: bool, exe_path: Seq<char>) -> CommandLineView {
    CommandLineView {
        program: REGISTRY_PROGRAM@,
        arguments: if enable {
            seq![
                "add"@,
                AUTOSTART_REGISTRY_KEY@,
                "/v"@,
                AUTOSTART_APP_NAME@,
                "/t"@,
                "REG_SZ"@,
                "/d"@,
                quoted(exe_path),
                "/f"@,
            ]
        } else {
            seq!["delete"@, AUTOSTART_REGISTRY_KEY@, "/v"@, AUTOSTART_APP_NAME@, "/f"@]
        },
    }
}

/// Says which command switches the start with the session on or off.
/// `exe_path` is the path of the launcher itself and plays no part when the
/// entry is struck.
pub fn autostart_command(enable: bool, exe_path: &str) -> (command: CommandLine)
    ensures
        command@ == autostart_plan(enable, exe_path@),
{
    let mut arguments: Vec<String> = Vec::new();
    if enable {
        proof {
            reveal_strlit("\"");
        }
        let mut path = "\"".to_owned();
        path.append(exe_path);
        path.append("\"");
        assert(path@ == quoted(exe_path@));
        arguments.push("add".to_owned());
        arguments.push(AUTOSTART_REGISTRY_KEY.to_owned());
        arguments.push("/v".to_owned());
        arguments.push(AUTOSTART_APP_NAME.to_owned());
        arguments.push("/t".to_owned());
        arguments.push("REG_SZ".to_owned());
        arguments.push("/d".to_owned());
        arguments.push(path);
        arguments.push("/f".to_owned());
    } else {
        arguments.push("delete".to_owned());
        arguments.push(AUTOSTART_REGISTRY_KEY.to_owned());
        arguments.push("/v".to_owned());
        arguments.push(AUTOSTART_APP_NAME.to_owned());
        arguments.push("/f".to_owned());
    }
    let command = CommandLine { program: REGISTRY_PROGRAM.to_owned(), arguments };
    assert(command@.arguments =~= autostart_plan(enable, exe_path@).arguments);
    command
}

/// What the switch reports once the command has run: an entry that could
/// not be added is an error, an entry that could not be struck is not.
pub fn autostart_outcome(enable: bool, succeeded: bool) -> (r: Result<(), String>)
    ensures
        r is Err <==> enable && !succeeded,
        r matches Err(message) ==> message@ == AUTOSTART_FAILURE@,
{
    if enable && !succeeded {
        Err(AUTOSTART_FAILURE.to_owned())
    } else {
        Ok(())
    }
}

} // verus!
