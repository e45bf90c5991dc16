//! Starting the client and ending the processes that belong to it.
//!
//! Nothing here touches a process: the functions say which program is to be
//! run with which arguments, and the caller runs it.

use crate::text::texts;
use vstd::prelude::*;

verus! {

/// Path of the client that is used where none is configured.
pub const FALLBACK_CLIENT_PATH: &'static str =
    "E:\\Riot Games\\Riot Client\\RiotClientServices.exe";

/// Launch flag that selects the game.
pub const LAUNCH_PRODUCT_FLAG: &'static str = "--launch-product=league_of_legends";

/// Launch flag that selects the patch line.
pub const LAUNCH_PATCHLINE_FLAG: &'static str = "--launch-patchline=live";

/// Program that ends a process by its image name.
pub const KILL_PROGRAM: &'static str = "taskkill";

/// Flag of [`KILL_PROGRAM`] that forces the end.
pub const KILL_FORCE_FLAG: &'static str = "/F";

/// Flag of [`KILL_PROGRAM`] that announces an image name.
pub const KILL_IMAGE_FLAG: &'static str = "/IM";

/// A program and the arguments it is run with.
#[derive(Debug)]
pub struct CommandLine {
    pub program: String,
    pub arguments: Vec<String>,
}

/// What a [`CommandLine`] holds, as sequences of characters.
pub struct CommandLineView {
    pub program: Seq<char>,
    pub arguments: Seq<Seq<char>>,
}

impl View for CommandLine {
    type V = CommandLineView;

    open spec fn view(&self) -> CommandLineView {
        CommandLineView { program: self.program@, arguments: texts(self.arguments@) }
    }
}

/// The executable of the client and the arguments it is started with.
#[derive(Debug)]
pub struct LaunchSpec {
    pub executable_path: String,
    pub arguments: Vec<String>,
}

/// What a [`LaunchSpec`] holds, as sequences of characters.
pub struct LaunchSpecView {
    pub executable_path: Seq<char>,
    pub arguments: Seq<Seq<char>>,
}

impl View for LaunchSpec {
    type V = LaunchSpecView;

    open spec fn view(&self) -> LaunchSpecView {
        LaunchSpecView {
            executable_path: self.executable_path@,
            arguments: texts(self.arguments@),
        }
    }
}

/// Why a login attempt did not get as far as a search.
#[derive(Clone, Copy, Debug, PartialEq, Eq, Structural)]
pub enum LaunchError {
    /// The operating system did not create the process.
    SpawnFailed,
    /// An attempt on the same process is still under way.
    AlreadyInFlight,
}

/// How the client is started for the configured path: with the fallback path
/// where none is configured, and always with the two launch flags.
pub open spec fn launch_plan(configured_path: Seq<char>) -> LaunchSpecView {
    LaunchSpecView {
        executable_path: if configured_path.len() == 0 {
            FALLBACK_CLIENT_PATH@
        } else {
            configured_path
        },
        arguments: seq![LAUNCH_PRODUCT_FLAG@, LAUNCH_PATCHLINE_FLAG@],
    }
}

/// The command that ends the processes of the image `name` by force.
pub open spec fn termination_of(name: Seq<char>) -> CommandLineView {
    CommandLineView {
        program: KILL_PROGRAM@,
        arguments: seq![KILL_FORCE_FLAG@, KILL_IMAGE_FLAG@, name],
    }
}

/// The image names of the processes that belong to the client and the game.
pub open spec fn kill_list_names() -> Seq<Seq<char>> {
    seq![
        "RiotClientServices.exe"@,
        "RiotClientUx.exe"@,
        "LeagueClient.exe"@,
        "LeagueClientUx.exe"@,
        "LeagueCrashHandler64.exe"@,
        "League of Legends.exe"@,
    ]
}

impl Clone for LaunchSpec {
    fn clone(&self) -> (copy: Self)
        ensures
            copy@ == self@,
    {
        let copy = LaunchSpec {
            executable_path: self.executable_path.clone(),
            arguments: self.arguments.clone(),
        };
        assert(texts(copy.arguments@) =~= texts(self.arguments@));
        copy
    }
}

/// Says how the client is to be started.
pub fn launch_spec(configured_path: String) -> (spec: LaunchSpec)
    ensures
        spec@ == launch_plan(configured_path@),
{
    let executable_path = if configured_path.as_str().is_empty() {
        FALLBACK_CLIENT_PATH.to_owned()
    } else {
        configured_path
    };
    let mut arguments: Vec<String> = Vec::new();
    arguments.push(LAUNCH_PRODUCT_FLAG.to_owned());
    arguments.push(LAUNCH_PATCHLINE_FLAG.to_owned());
    let spec = LaunchSpec { executable_path, arguments };
    assert(spec@.arguments =~= launch_plan(configured_path@).arguments);
    spec
}

/// The kill list: the image names of the processes that
/// [`kill_league_processes`] ends.
pub fn kill_list() -> (names: Vec<String>)
    ensures
        texts(names@) == kill_list_names(),
{
    let mut names: Vec<String> = Vec::new();
    names.push("RiotClientServices.exe".to_owned());
    names.push("RiotClientUx.exe".to_owned());
    names.push("LeagueClient.exe".to_owned());
    names.push("LeagueClientUx.exe".to_owned());
    names.push("LeagueCrashHandler64.exe".to_owned());
    names.push("League of Legends.exe".to_owned());
    assert(texts(names@) =~= kill_list_names());
    names
}

/// The request that ends the processes of one image by force.
pub fn termination_request(name: &str) -> (request: CommandLine)
    ensures
        request@ == termination_of(name@),
{
    let mut arguments: Vec<String> = Vec::new();
    arguments.push(KILL_FORCE_FLAG.to_owned());
    arguments.push(KILL_IMAGE_FLAG.to_owned());
    arguments.push(name.to_owned());
    let request = CommandLine { program: KILL_PROGRAM.to_owned(), arguments };
    assert(request@.arguments =~= termination_of(name@).arguments);
    request
}

/// One termination request for each name, in the order of the names. Whether
/// a process of that name runs plays no part, and nothing can fail.
pub fn kill_all(names: &Vec<String>) -> (requests: Vec<CommandLine>)
    ensures
        requests.len() == names.len(),
        forall|i: int|
            0 <= i < names.len() ==> (#[trigger] requests[i])@ == termination_of(names[i]@),
{
    let mut requests: Vec<CommandLine> = Vec::new();
    let mut i: usize = 0;
    while i < names.len()
        invariant
            i <= names.len(),
            requests.len() == i,
            forall|k: int| 0 <= k < i ==> (#[trigger] requests[k])@ == termination_of(names[k]@),
        decreases names.len() - i,
    {
        requests.push(termination_request(names[i].as_str()));
        i += 1;
    }
    requests
}

/// The termination requests for the whole kill list: one per name.
pub fn kill_league_processes() -> (requests: Vec<CommandLine>)
    ensures
        requests.len() == kill_list_names().len(),
        forall|i: int|
            0 <= i < requests.len() ==> (#[trigger] requests[i])@ == termination_of(
                kill_list_names()[i],
            ),
{
    let names = kill_list();
    let requests = kill_all(&names);
    assert forall|i: int| 0 <= i < requests.len() implies (#[trigger] requests[i])@
        == termination_of(kill_list_names()[i]) by {
        assert(texts(names@)[i] == names[i]@);
    }
    requests
}

} // verus!
