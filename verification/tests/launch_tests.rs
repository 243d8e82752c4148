use dayz_linux_gui_launcher::command::{cli_script_dir, launch_args, launcher_program};
use dayz_linux_gui_launcher::steam::SteamDir;

fn strings(v: &[&str]) -> Vec<String> {
    v.iter().map(|s| s.to_string()).collect()
}

#[test]
fn launcher_program_path() {
    assert_eq!(cli_script_dir(), "/usr/bin");
    assert_eq!(launcher_program(), "/usr/bin/dayz-launcher");
}

#[test]
fn launch_args_default_steam() {
    let args = launch_args("Survivor", "1.2.3.4", "2302", "27016", "default", "");
    assert_eq!(
        args,
        strings(&["--steam", "", "--launch", "--name", "Survivor", "--server", "1.2.3.4:2302", "--port", "27016"])
    );
}

#[test]
fn launch_args_flatpak_steam() {
    let args = launch_args("p", "host", "1", "2", "flatpak", "/ignored");
    assert_eq!(
        args,
        strings(&["--steam", "flatpak", "--launch", "--name", "p", "--server", "host:1", "--port", "2"])
    );
}

#[test]
fn launch_args_custom_steam() {
    let args = launch_args("p", "host", "1", "2", "custom", "/opt/steam/steam.sh");
    assert_eq!(
        args,
        strings(&[
            "--steam",
            "/opt/steam/steam.sh",
            "--launch",
            "--name",
            "p",
            "--server",
            "host:1",
            "--port",
            "2"
        ])
    );
}

#[test]
fn launch_args_unknown_steam_value() {
    let args = launch_args("", "", "", "", "Default", "x");
    assert_eq!(args, strings(&["--launch", "--name", "", "--server", ":", "--port", ""]));
}

#[test]
fn choice_values_reach_the_command() {
    let expect = |path: &str| {
        strings(&["--steam", path, "--launch", "--name", "p", "--server", "h:1", "--port", "2"])
    };
    assert_eq!(launch_args("p", "h", "1", "2", &SteamDir::Default.value(), "/s"), expect(""));
    assert_eq!(launch_args("p", "h", "1", "2", &SteamDir::Flatpak.value(), "/s"), expect("flatpak"));
    assert_eq!(launch_args("p", "h", "1", "2", &SteamDir::Custom.value(), "/s"), expect("/s"));
}

#[test]
fn steam_dir_names() {
    assert_eq!(SteamDir::Default.name(), "Default");
    assert_eq!(SteamDir::Flatpak.name(), "Flatpak");
    assert_eq!(SteamDir::Custom.name(), "Custom");
}

#[test]
fn steam_dir_from_value_cases() {
    assert_eq!(SteamDir::from_value("default"), SteamDir::Default);
    assert_eq!(SteamDir::from_value("flatpak"), SteamDir::Flatpak);
    assert_eq!(SteamDir::from_value("custom"), SteamDir::Custom);
    assert_eq!(SteamDir::from_value("something"), SteamDir::Default);
    assert_eq!(SteamDir::from_value(""), SteamDir::Default);
}

#[test]
fn steam_dir_values() {
    assert_eq!(SteamDir::Default.value(), "default");
    assert_eq!(SteamDir::Flatpak.value(), "flatpak");
    assert_eq!(SteamDir::Custom.value(), "custom");
    for d in [SteamDir::Default, SteamDir::Flatpak, SteamDir::Custom] {
        assert_eq!(SteamDir::from_value(&d.value()), d);
    }
}
