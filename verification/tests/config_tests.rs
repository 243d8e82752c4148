use dayz_linux_gui_launcher::config::{
    config_dir_for, config_file_for, create_config_file, has_main_table, has_profile,
    load_profile, profile_names, read_last_values, return_defaults, save_new_profile, setup,
    update_last_values, LastValues,
};
use dayz_linux_gui_launcher::table::{TomlItem, TomlTable};

fn values(steamexe: &str) -> LastValues {
    LastValues {
        playername: "Survivor".to_string(),
        serverip: "1.2.3.4".to_string(),
        serverport: "2302".to_string(),
        queryport: "27016".to_string(),
        steamexe: steamexe.to_string(),
        customsteamexe: "/opt/steam".to_string(),
        profilename: "evening".to_string(),
    }
}

fn save(config: TomlTable, name: &str) -> TomlTable {
    save_new_profile(config, name, "p", "ip", "port", "qport", "Flatpak", "/s")
}

#[test]
fn config_paths() {
    assert_eq!(config_dir_for("/home/ann"), "/home/ann/.config/dayz-linux-gui-launcher");
    assert_eq!(
        config_file_for("/home/ann/.config/dayz-linux-gui-launcher"),
        "/home/ann/.config/dayz-linux-gui-launcher/config.toml"
    );
}

#[test]
fn setup_steps() {
    let p = setup(false, false);
    assert!(p.create_config_dir && p.write_default_config && p.create_local_dir);
    let p = setup(true, false);
    assert!(!p.create_config_dir && !p.write_default_config && p.create_local_dir);
    let p = setup(false, true);
    assert!(p.create_config_dir && p.write_default_config && !p.create_local_dir);
    let p = setup(true, true);
    assert!(!p.create_config_dir && !p.write_default_config && !p.create_local_dir);
}

#[test]
fn default_config_contents() {
    let c = create_config_file();
    assert_eq!(c.keys(), vec!["main".to_string()]);
    let main = c.get_table("main").unwrap();
    assert_eq!(
        main.keys(),
        vec![
            "dayz-cli-launcher-version".to_string(),
            "last_values".to_string(),
            "version".to_string()
        ]
    );
    assert_eq!(main.get_text("version"), Some("0.1.0".to_string()));
    assert_eq!(main.get_text("dayz-cli-launcher-version"), Some("0.5.3".to_string()));
    let lv = read_last_values(&c).unwrap();
    assert_eq!(lv.playername, "");
    assert_eq!(lv.serverip, "");
    assert_eq!(lv.serverport, "");
    assert_eq!(lv.queryport, "");
    assert_eq!(lv.steamexe, "default");
    assert_eq!(lv.customsteamexe, "");
    assert_eq!(lv.profilename, "");
}

#[test]
fn return_defaults_ok_on_default_config() {
    assert_eq!(return_defaults(&create_config_file(), true), Ok(()));
}

#[test]
fn return_defaults_missing_file() {
    assert_eq!(
        return_defaults(&create_config_file(), false),
        Err("Config file does not exist".to_string())
    );
}

#[test]
fn return_defaults_missing_last_values() {
    let mut c = TomlTable::new();
    c.insert_table("main", TomlTable::new());
    assert_eq!(return_defaults(&c, true), Err("last_values table does not exist".to_string()));
    let mut main = TomlTable::new();
    main.insert_text("last_values", "not a table");
    let mut c = TomlTable::new();
    c.insert_table("main", main);
    assert_eq!(return_defaults(&c, true), Ok(()));
}

#[test]
fn load_after_save() {
    let c = save(create_config_file(), "night");
    let p = load_profile(&c, "night");
    assert_eq!(p.playername, "p");
    assert_eq!(p.serverip, "ip");
    assert_eq!(p.serverport, "port");
    assert_eq!(p.queryport, "qport");
    assert_eq!(p.steamexe, "Flatpak");
    assert_eq!(p.customsteamexe, "/s");
    assert!(has_profile(&c, "night"));
    assert!(!has_profile(&c, "day"));
}

#[test]
fn save_replaces_other_profiles() {
    let c = save(create_config_file(), "one");
    let c = save(c, "two");
    assert!(!has_profile(&c, "one"));
    assert!(has_profile(&c, "two"));
    let main = c.get_table("main").unwrap();
    assert_eq!(main.get_table("profiles").unwrap().keys(), vec!["two".to_string()]);
    assert_eq!(main.get_text("version"), Some("0.1.0".to_string()));
    assert!(read_last_values(&c).is_some());
}

#[test]
fn save_twice_gives_same_content() {
    let once = save(create_config_file(), "x");
    let twice = save(save(create_config_file(), "x"), "x");
    assert_eq!(once.render_config().unwrap(), twice.render_config().unwrap());
}

#[test]
fn main_table_checks() {
    assert!(TomlTable::new().get_table("main").is_none());
    let mut c = TomlTable::new();
    c.insert_text("main", "text");
    assert!(c.get_table("main").is_none());
    assert!(!has_main_table(&c, "last_values"));
    assert!(has_main_table(&create_config_file(), "last_values"));
    assert!(!has_main_table(&create_config_file(), "profiles"));
}

#[test]
fn load_profile_incomplete() {
    let mut profile = TomlTable::new();
    profile.insert_text("playername", "p");
    let mut profiles = TomlTable::new();
    profiles.insert_table("x", profile);
    let mut main = TomlTable::new();
    main.insert_table("profiles", profiles);
    let mut c = TomlTable::new();
    c.insert_table("main", main);
    assert!(!has_profile(&c, "x"));
    assert!(!has_profile(&create_config_file(), "x"));
}

#[test]
fn read_after_update() {
    let c = update_last_values(create_config_file(), &values("Custom"));
    let lv = read_last_values(&c).unwrap();
    assert_eq!(lv.playername, "Survivor");
    assert_eq!(lv.serverip, "1.2.3.4");
    assert_eq!(lv.serverport, "2302");
    assert_eq!(lv.queryport, "27016");
    assert_eq!(lv.steamexe, "Custom");
    assert_eq!(lv.customsteamexe, "/opt/steam");
    assert_eq!(lv.profilename, "evening");
}

#[test]
fn update_keeps_other_keys() {
    let mut c = create_config_file();
    let mut main = match c.remove("main") {
        Some(TomlItem::Table(t)) => t,
        _ => panic!("main is a table"),
    };
    let mut lv = match main.remove("last_values") {
        Some(TomlItem::Table(t)) => t,
        _ => panic!("last_values is a table"),
    };
    lv.insert_text("extra", "kept");
    main.insert_table("last_values", lv);
    c.insert_table("main", main);
    c.insert_text("count", "3");
    let c = update_last_values(c, &values("Default"));
    let lv = c.get_table("main").unwrap().get_table("last_values").unwrap();
    assert_eq!(lv.get_text("extra"), Some("kept".to_string()));
    assert!(c.contains_key("count"));
}

#[test]
fn update_needs_last_values_table() {
    let mut c = TomlTable::new();
    c.insert_table("main", TomlTable::new());
    assert!(!has_main_table(&c, "last_values"));
    assert!(!has_main_table(&TomlTable::new(), "last_values"));
}

#[test]
fn profile_names_reads_top_level_table() {
    let c = save(create_config_file(), "night");
    assert!(profile_names(&c).is_none());
    let mut profiles = TomlTable::new();
    profiles.insert_table("zed", TomlTable::new());
    profiles.insert_table("amy", TomlTable::new());
    let mut c = TomlTable::new();
    c.insert_table("profiles", profiles);
    assert_eq!(profile_names(&c), Some(vec!["amy".to_string(), "zed".to_string()]));
}
