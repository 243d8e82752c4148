use dayz_linux_gui_launcher::config::{create_config_file, read_last_values, LastValues};
use dayz_linux_gui_launcher::config::{load_profile};
use dayz_linux_gui_launcher::launcher::DayzLinuxGuiLauncher;
use dayz_linux_gui_launcher::steam::SteamDir;
use dayz_linux_gui_launcher::window::{
    maximize_hover_text, title_bar_command, window_button_commands, WindowCommand,
};

fn stored(steamexe: &str) -> LastValues {
    LastValues {
        playername: "Survivor".to_string(),
        serverip: "1.2.3.4".to_string(),
        serverport: "2302".to_string(),
        queryport: "27016".to_string(),
        steamexe: steamexe.to_string(),
        customsteamexe: "/opt/steam".to_string(),
        profilename: "evening".to_string(),
    }
}

#[test]
fn initial_state_from_last_values() {
    let s = DayzLinuxGuiLauncher::initial(&Ok(()), Some(stored("flatpak"))).unwrap();
    assert_eq!(s.playername, "Survivor");
    assert_eq!(s.serverip, "1.2.3.4");
    assert_eq!(s.serverport, "2302");
    assert_eq!(s.queryport, "27016");
    assert_eq!(s.steamexe, SteamDir::Flatpak);
    assert_eq!(s.customsteamexe, Some("/opt/steam".to_string()));
    assert_eq!(s._customsteamexe, Some("".to_string()));
    assert!(!s.steamexehelp);
    assert_eq!(s.profilename, "evening");
}

#[test]
fn initial_state_without_stored_values() {
    let s = DayzLinuxGuiLauncher::initial(&Err("last_values table does not exist".to_string()), None)
        .unwrap();
    assert_eq!(s.playername, "");
    assert_eq!(s.steamexe, SteamDir::Default);
    assert_eq!(
        s.customsteamexe,
        Some("Click \"Browse\" or enter path to steam executable".to_string())
    );
    assert_eq!(s._customsteamexe, Some("".to_string()));
    assert!(DayzLinuxGuiLauncher::initial(&Ok(()), None).is_none());
}

#[test]
fn initial_state_from_new_config() {
    let c = create_config_file();
    let s = DayzLinuxGuiLauncher::initial(&Ok(()), read_last_values(&c)).unwrap();
    assert_eq!(s.steamexe, SteamDir::Default);
    assert_eq!(s.customsteamexe, Some("".to_string()));
}

#[test]
fn help_toggles() {
    let mut s = DayzLinuxGuiLauncher::nothing_stored();
    s.toggle_help();
    assert!(s.steamexehelp);
    s.toggle_help();
    assert!(!s.steamexehelp);
}

#[test]
fn browse_then_cancel_restores_path() {
    let mut s = DayzLinuxGuiLauncher::from_last_values(stored("custom"));
    assert_eq!(s.steamexe, SteamDir::Custom);
    s.browse_selected(Some("/new/steam".to_string()));
    assert_eq!(s.customsteamexe, Some("/new/steam".to_string()));
    assert_eq!(s._customsteamexe, Some("/opt/steam".to_string()));
    s.browse_selected(None);
    assert_eq!(s.customsteamexe, None);
    assert_eq!(s._customsteamexe, Some("/new/steam".to_string()));
    s.restore_custom_path();
    assert_eq!(s.customsteamexe, Some("/new/steam".to_string()));
}

#[test]
fn restore_only_for_custom() {
    let mut s = DayzLinuxGuiLauncher::from_last_values(stored("default"));
    s.browse_selected(None);
    s.restore_custom_path();
    assert_eq!(s.customsteamexe, None);
    s.select_steam_dir(SteamDir::Custom);
    s.restore_custom_path();
    assert_eq!(s.customsteamexe, Some("/opt/steam".to_string()));
}

#[test]
fn launch_from_window_passes_choice_value() {
    let s = DayzLinuxGuiLauncher::from_last_values(stored("custom"));
    let args = s.launch_args();
    assert_eq!(
        args,
        vec![
            "--steam",
            "/opt/steam",
            "--launch",
            "--name",
            "Survivor",
            "--server",
            "1.2.3.4:2302",
            "--port",
            "27016"
        ]
            .into_iter()
            .map(String::from)
            .collect::<Vec<String>>()
    );
}

#[test]
fn close_then_reopen() {
    let mut s = DayzLinuxGuiLauncher::from_last_values(stored("flatpak"));
    s.playername = "Other".to_string();
    let c = s.on_close_event(create_config_file());
    let lv = read_last_values(&c).unwrap();
    assert_eq!(lv.steamexe, "Flatpak");
    let r = DayzLinuxGuiLauncher::from_last_values(lv);
    assert_eq!(r.playername, "Other");
    assert_eq!(r.serverip, "1.2.3.4");
    assert_eq!(r.customsteamexe, Some("/opt/steam".to_string()));
    assert_eq!(r.profilename, "evening");
    assert_eq!(r.steamexe, SteamDir::Default);
}

#[test]
fn no_closing_values_without_path() {
    let mut s = DayzLinuxGuiLauncher::nothing_stored();
    assert!(s.last_values().is_some());
    s.browse_selected(None);
    assert!(s.last_values().is_none());
}

#[test]
fn launch_for_each_choice() {
    let mut s = DayzLinuxGuiLauncher::from_last_values(stored("default"));
    assert_eq!(s.launch_args()[..2], ["--steam".to_string(), "".to_string()]);
    s.select_steam_dir(SteamDir::Flatpak);
    assert_eq!(s.launch_args()[..2], ["--steam".to_string(), "flatpak".to_string()]);
    s.select_steam_dir(SteamDir::Custom);
    assert_eq!(s.launch_args()[..2], ["--steam".to_string(), "/opt/steam".to_string()]);
}

#[test]
fn save_profile_from_window() {
    let s = DayzLinuxGuiLauncher::from_last_values(stored("custom"));
    let c = s.save_profile(create_config_file());
    let p = load_profile(&c, "evening");
    assert_eq!(p.playername, "Survivor");
    assert_eq!(p.steamexe, "Custom");
    assert_eq!(p.customsteamexe, "/opt/steam");
}

#[test]
fn title_bar_commands() {
    assert_eq!(title_bar_command(true, true, false), Some(WindowCommand::SetMaximized(true)));
    assert_eq!(title_bar_command(true, false, true), Some(WindowCommand::SetMaximized(false)));
    assert_eq!(title_bar_command(false, true, true), Some(WindowCommand::DragWindow));
    assert_eq!(title_bar_command(false, false, true), None);
}

#[test]
fn window_buttons() {
    assert_eq!(window_button_commands(false, false, false, false), vec![]);
    assert_eq!(
        window_button_commands(true, true, true, true),
        vec![WindowCommand::Close, WindowCommand::SetMaximized(false), WindowCommand::SetMinimized(true)]
    );
    assert_eq!(
        window_button_commands(false, false, true, false),
        vec![WindowCommand::SetMaximized(true)]
    );
    assert_eq!(maximize_hover_text(true), "Restore window");
    assert_eq!(maximize_hover_text(false), "Maximize window");
}

#[test]
fn restore_with_shown_path_needs_no_fallback() {
    let mut s = DayzLinuxGuiLauncher::from_last_values(stored("custom"));
    s._customsteamexe = None;
    s.restore_custom_path();
    assert_eq!(s.customsteamexe, Some("/opt/steam".to_string()));
    assert_eq!(s._customsteamexe, None);
}
