use rusty_league::launcher::{
    kill_all, kill_league_processes, kill_list, launch_spec, termination_request, CommandLine,
};
use rusty_league::settings::{autostart_command, autostart_outcome, Settings};

fn line(command: &CommandLine) -> String {
    format!("{} {}", command.program, command.arguments.join(" "))
}

#[test]
fn launch_spec_keeps_a_configured_path() {
    let spec = launch_spec("C:\\Game\\Client.exe".to_string());
    assert_eq!(spec.executable_path, "C:\\Game\\Client.exe");
    assert_eq!(
        spec.arguments,
        vec!["--launch-product=league_of_legends", "--launch-patchline=live"]
    );
    let copy = spec.clone();
    assert_eq!(copy.executable_path, spec.executable_path);
    assert_eq!(copy.arguments, spec.arguments);
}

#[test]
fn launch_spec_falls_back_for_an_empty_path() {
    let spec = launch_spec(String::new());
    assert_eq!(spec.executable_path, "E:\\Riot Games\\Riot Client\\RiotClientServices.exe");
    assert_eq!(
        spec.arguments,
        vec!["--launch-product=league_of_legends", "--launch-patchline=live"]
    );
    // a blank path is a path
    assert_eq!(launch_spec(" ".to_string()).executable_path, " ");
}

#[test]
fn kill_list_names_the_six_images() {
    assert_eq!(
        kill_list(),
        vec![
            "RiotClientServices.exe",
            "RiotClientUx.exe",
            "LeagueClient.exe",
            "LeagueClientUx.exe",
            "LeagueCrashHandler64.exe",
            "League of Legends.exe",
        ]
    );
}

#[test]
fn termination_request_forces_by_image_name() {
    let request = termination_request("League of Legends.exe");
    assert_eq!(request.program, "taskkill");
    assert_eq!(request.arguments, vec!["/F", "/IM", "League of Legends.exe"]);
}

#[test]
fn kill_all_makes_one_request_per_name() {
    let names = vec!["a.exe".to_string(), "b.exe".to_string(), "a.exe".to_string()];
    let requests = kill_all(&names);
    let lines: Vec<String> = requests.iter().map(line).collect();
    assert_eq!(lines, vec!["taskkill /F /IM a.exe", "taskkill /F /IM b.exe", "taskkill /F /IM a.exe"]);
    assert!(kill_all(&Vec::new()).is_empty());
}

#[test]
fn kill_league_processes_covers_the_kill_list() {
    let lines: Vec<String> = kill_league_processes().iter().map(line).collect();
    assert_eq!(
        lines,
        vec![
            "taskkill /F /IM RiotClientServices.exe",
            "taskkill /F /IM RiotClientUx.exe",
            "taskkill /F /IM LeagueClient.exe",
            "taskkill /F /IM LeagueClientUx.exe",
            "taskkill /F /IM LeagueCrashHandler64.exe",
            "taskkill /F /IM League of Legends.exe",
        ]
    );
}

#[test]
fn default_settings_are_empty() {
    let settings = Settings::default();
    assert_eq!(settings.riot_client_path, "");
    assert!(!settings.minimalist_mode);
    assert!(!settings.start_with_windows);
    let copy = Settings {
        riot_client_path: "C:\\x.exe".to_string(),
        minimalist_mode: true,
        start_with_windows: false,
    }
    .clone();
    assert_eq!(copy.riot_client_path, "C:\\x.exe");
    assert!(copy.minimalist_mode);
    assert!(!copy.start_with_windows);
}

#[test]
fn autostart_is_added_with_the_quoted_path() {
    let command = autostart_command(true, "C:\\Program Files\\rl.exe");
    assert_eq!(command.program, "reg");
    assert_eq!(
        command.arguments,
        vec![
            "add",
            "HKCU\\Software\\Microsoft\\Windows\\CurrentVersion\\Run",
            "/v",
            "RustyLeague",
            "/t",
            "REG_SZ",
            "/d",
            "\"C:\\Program Files\\rl.exe\"",
            "/f",
        ]
    );
}

#[test]
fn autostart_is_deleted_without_a_path() {
    let command = autostart_command(false, "C:\\rl.exe");
    assert_eq!(command.program, "reg");
    assert_eq!(
        command.arguments,
        vec![
            "delete",
            "HKCU\\Software\\Microsoft\\Windows\\CurrentVersion\\Run",
            "/v",
            "RustyLeague",
            "/f",
        ]
    );
}

#[test]
fn only_a_failed_add_is_an_error() {
    assert_eq!(autostart_outcome(true, true), Ok(()));
    assert_eq!(autostart_outcome(true, false), Err("Failed to add registry entry".to_string()));
    assert_eq!(autostart_outcome(false, true), Ok(()));
    assert_eq!(autostart_outcome(false, false), Ok(()));
}
