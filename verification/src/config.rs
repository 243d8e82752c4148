//! The launcher's configuration document: where it lives, what a new one
//! holds, and how profiles and the last-used values are stored in it.
//!
//! The document is a TOML table with a table `main`, which holds the
//! version texts, the table `last_values` (the values that the window shows
//! on start) and the table `profiles` (named sets of values).
use vstd::prelude::*;

use crate::table::{lists_keys, table_at, text_at, TomlItem, TomlTable, TomlValue};
use crate::text::join;

verus! {

/// A named set of launch values.
pub struct Profile {
    pub playername: String,
    pub serverip: String,
    pub serverport: String,
    pub queryport: String,
    pub steamexe: String,
    pub customsteamexe: String,
}

/// The texts of a profile.
pub struct ProfileView {
    pub playername: Seq<char>,
    pub serverip: Seq<char>,
    pub serverport: Seq<char>,
    pub queryport: Seq<char>,
    pub steamexe: Seq<char>,
    pub customsteamexe: Seq<char>,
}

impl View for Profile {
    type V = ProfileView;

    open spec fn view(&self) -> ProfileView {
        ProfileView {
            playername: self.playername@,
            serverip: self.serverip@,
            serverport: self.serverport@,
            queryport: self.queryport@,
            steamexe: self.steamexe@,
            customsteamexe: self.customsteamexe@,
        }
    }
}

/// The values that the window showed when it was last closed.
pub struct LastValues {
    pub playername: String,
    pub serverip: String,
    pub serverport: String,
    pub queryport: String,
    pub steamexe: String,
    pub customsteamexe: String,
    pub profilename: String,
}

/// The texts of the last-used values.
pub struct LastValuesView {
    pub playername: Seq<char>,
    pub serverip: Seq<char>,
    pub serverport: Seq<char>,
    pub queryport: Seq<char>,
    pub steamexe: Seq<char>,
    pub customsteamexe: Seq<char>,
    pub profilename: Seq<char>,
}

impl View for LastValues {
    type V = LastValuesView;

    open spec fn view(&self) -> LastValuesView {
        LastValuesView {
            playername: self.playername@,
            serverip: self.serverip@,
            serverport: self.serverport@,
            queryport: self.queryport@,
            steamexe: self.steamexe@,
            customsteamexe: self.customsteamexe@,
            profilename: self.profilename@,
        }
    }
}

/// The keys of a profile table.
pub open spec fn profile_keys() -> Set<Seq<char>> {
    set![
        "playername"@,
        "serverip"@,
        "serverport"@,
        "queryport"@,
        "steamexe"@,
        "customsteamexe"@,
    ]
}

/// The keys of the table of last-used values.
pub open spec fn last_value_keys() -> Set<Seq<char>> {
    profile_keys().insert("profilename"@)
}

/// The profile that a table holds, if each of its keys holds text.
pub open spec fn profile_fields(q: Map<Seq<char>, TomlValue>) -> Option<ProfileView> {
    match (
        text_at(q, "playername"@),
        text_at(q, "serverip"@),
        text_at(q, "serverport"@),
        text_at(q, "queryport"@),
        text_at(q, "steamexe"@),
        text_at(q, "customsteamexe"@),
    ) {
        (Some(a), Some(b), Some(c), Some(d), Some(e), Some(f)) => Some(
            ProfileView {
                playername: a,
                serverip: b,
                serverport: c,
                queryport: d,
                steamexe: e,
                customsteamexe: f,
            },
        ),
        _ => None,
    }
}

/// The last-used values that a table holds, if each of its keys holds text.
pub open spec fn last_values_fields(l: Map<Seq<char>, TomlValue>) -> Option<LastValuesView> {
    match (profile_fields(l), text_at(l, "profilename"@)) {
        (Some(p), Some(n)) => Some(
            LastValuesView {
                playername: p.playername,
                serverip: p.serverip,
                serverport: p.serverport,
                queryport: p.queryport,
                steamexe: p.steamexe,
                customsteamexe: p.customsteamexe,
                profilename: n,
            },
        ),
        _ => None,
    }
}

/// The profile stored under `name` in `main.profiles`.
pub open spec fn stored_profile(config: Map<Seq<char>, TomlValue>, name: Seq<char>) -> Option<
    ProfileView,
> {
    match table_at(config, "main"@) {
        Some(m) => match table_at(m, "profiles"@) {
            Some(ps) => match table_at(ps, name) {
                Some(q) => profile_fields(q),
                None => None,
            },
            None => None,
        },
        None => None,
    }
}

/// The last-used values stored in `main.last_values`.
pub open spec fn stored_last_values(config: Map<Seq<char>, TomlValue>) -> Option<LastValuesView> {
    match table_at(config, "main"@) {
        Some(m) => match table_at(m, "last_values"@) {
            Some(l) => last_values_fields(l),
            None => None,
        },
        None => None,
    }
}

/// The table stored under `name` in `main.profiles`, if each table on the
/// way is there.
pub open spec fn profile_table(config: Map<Seq<char>, TomlValue>, name: Seq<char>) -> Option<
    Map<Seq<char>, TomlValue>,
> {
    match table_at(config, "main"@) {
        Some(m) => match table_at(m, "profiles"@) {
            Some(ps) => table_at(ps, name),
            None => None,
        },
        None => None,
    }
}

/// The table `main.last_values`, if each table on the way is there.
pub open spec fn last_values_table(config: Map<Seq<char>, TomlValue>) -> Option<
    Map<Seq<char>, TomlValue>,
> {
    match table_at(config, "main"@) {
        Some(m) => table_at(m, "last_values"@),
        None => None,
    }
}

/// `after` is `before` with `main.profiles` replaced by a table that holds
/// the one profile `p` under `name`; all else is unchanged.
pub open spec fn saved_profile(
    before: Map<Seq<char>, TomlValue>,
    after: Map<Seq<char>, TomlValue>,
    name: Seq<char>,
    p: ProfileView,
) -> bool {
    &&& after == before.insert("main"@, after["main"@])
    &&& match (table_at(before, "main"@), table_at(after, "main"@)) {
        (Some(m0), Some(m1)) => {
            &&& m1 == m0.insert("profiles"@, m1["profiles"@])
            &&& match table_at(m1, "profiles"@) {
                Some(ps) => {
                    &&& ps.dom() == set![name]
                    &&& match table_at(ps, name) {
                        Some(q) => q.dom() == profile_keys() && profile_fields(q) == Some(p),
                        None => false,
                    }
                },
                None => false,
            }
        },
        _ => false,
    }
}

/// `after` is `before` with the keys of `main.last_values` set to the
/// texts of `v`; all other keys keep their items.
pub open spec fn saved_last_values(
    before: Map<Seq<char>, TomlValue>,
    after: Map<Seq<char>, TomlValue>,
    v: LastValuesView,
) -> bool {
    &&& after == before.insert("main"@, after["main"@])
    &&& match (table_at(before, "main"@), table_at(after, "main"@)) {
        (Some(m0), Some(m1)) => {
            &&& m1 == m0.insert("last_values"@, m1["last_values"@])
            &&& match (table_at(m0, "last_values"@), table_at(m1, "last_values"@)) {
                (Some(l0), Some(l1)) => {
                    &&& l1.dom() == l0.dom().union(last_value_keys())
                    &&& forall|k: Seq<char>|
                        #![trigger l1[k]]
                        l0.contains_key(k) && !last_value_keys().contains(k) ==> l1[k] == l0[k]
                    &&& last_values_fields(l1) == Some(v)
                },
                _ => false,
            }
        },
        _ => false,
    }
}

/// The configuration has a table `main` that has a table under `k`.
pub open spec fn main_has_table(config: Map<Seq<char>, TomlValue>, k: Seq<char>) -> bool {
    match table_at(config, "main"@) {
        Some(m) => table_at(m, k) is Some,
        None => false,
    }
}

/// The last-used values of a new configuration: all empty, with Steam
/// started from its default install.
pub open spec fn default_last_values() -> LastValuesView {
    LastValuesView {
        playername: ""@,
        serverip: ""@,
        serverport: ""@,
        queryport: ""@,
        steamexe: "default"@,
        customsteamexe: ""@,
        profilename: ""@,
    }
}

/// `c` is the configuration that the launcher writes when it has none:
/// `main` with the version texts and the default last-used values.
pub open spec fn is_default_config(c: Map<Seq<char>, TomlValue>) -> bool {
    &&& c.dom() == set!["main"@]
    &&& match table_at(c, "main"@) {
        Some(m) => {
            &&& m.dom() == set!["version"@, "dayz-cli-launcher-version"@, "last_values"@]
            &&& text_at(m, "version"@) == Some("0.1.0"@)
            &&& text_at(m, "dayz-cli-launcher-version"@) == Some("0.5.3"@)
            &&& match table_at(m, "last_values"@) {
                Some(l) => l.dom() == last_value_keys() && last_values_fields(l) == Some(
                    default_last_values(),
                ),
                None => false,
            }
        },
        None => false,
    }
}

/// The keys that the configuration uses are different texts.
proof fn lemma_keys_distinct()
    ensures
        "playername"@ != "serverip"@,
        "playername"@ != "serverport"@,
        "playername"@ != "queryport"@,
        "playername"@ != "steamexe"@,
        "playername"@ != "customsteamexe"@,
        "playername"@ != "profilename"@,
        "serverip"@ != "serverport"@,
        "serverip"@ != "queryport"@,
        "serverip"@ != "steamexe"@,
        "serverip"@ != "customsteamexe"@,
        "serverip"@ != "profilename"@,
        "serverport"@ != "queryport"@,
        "serverport"@ != "steamexe"@,
        "serverport"@ != "customsteamexe"@,
        "serverport"@ != "profilename"@,
        "queryport"@ != "steamexe"@,
        "queryport"@ != "customsteamexe"@,
        "queryport"@ != "profilename"@,
        "steamexe"@ != "customsteamexe"@,
        "steamexe"@ != "profilename"@,
        "customsteamexe"@ != "profilename"@,
        "main"@ != "profiles"@,
        "version"@ != "dayz-cli-launcher-version"@,
        "version"@ != "last_values"@,
        "dayz-cli-launcher-version"@ != "last_values"@,
        "profiles"@ != "last_values"@,
{
    reveal_strlit("playername");
    reveal_strlit("serverip");
    reveal_strlit("serverport");
    reveal_strlit("queryport");
    reveal_strlit("steamexe");
    reveal_strlit("customsteamexe");
    reveal_strlit("profilename");
    reveal_strlit("main");
    reveal_strlit("profiles");
    reveal_strlit("version");
    reveal_strlit("dayz-cli-launcher-version");
    reveal_strlit("last_values");
    assert("playername"@.len() == 10 && "serverip"@.len() == 8 && "serverport"@.len() == 10);
    assert("queryport"@.len() == 9 && "steamexe"@.len() == 8 && "customsteamexe"@.len() == 14);
    assert("profilename"@.len() == 11 && "main"@.len() == 4 && "profiles"@.len() == 8);
    assert("version"@.len() == 7 && "dayz-cli-launcher-version"@.len() == 25);
    assert("last_values"@.len() == 11);
    assert("playername"@[0] != "serverport"@[0]);
    assert("playername"@[1] != "profilename"@[1]);
    assert("serverip"@[1] != "steamexe"@[1]);
    assert("serverport"@[0] != "profilename"@[0]);
    assert("main"@[0] != "profiles"@[0]);
    assert("profiles"@[0] != "last_values"@[0]);
}

/// The directory of the launcher's configuration, under the home directory `home`.
pub fn config_dir_for(home: &str) -> (r: String)
    ensures
        r@ == home@ + "/.config/dayz-linux-gui-launcher"@,
{
    join(home, "/.config/dayz-linux-gui-launcher")
}

/// The path of the configuration file in the directory `config_dir`.
pub fn config_file_for(config_dir: &str) -> (r: String)
    ensures
        r@ == config_dir@ + "/config.toml"@,
{
    join(config_dir, "/config.toml")
}

/// What the launcher creates on start.
#[derive(Clone, Copy, Debug, PartialEq, Eq, Structural)]
pub struct SetupPlan {
    /// Create the configuration directory.
    pub create_config_dir: bool,
    /// Write a new configuration file into it.
    pub write_default_config: bool,
    /// Create the directory of the command-line launcher.
    pub create_local_dir: bool,
}

/// The steps of the set-up, given which of the two directories exist: a
/// missing configuration directory is created and given a new
/// configuration; a missing launcher directory is created.
pub fn setup(config_dir_exists: bool, local_dir_exists: bool) -> (r: SetupPlan)
    ensures
        r.create_config_dir == !config_dir_exists,
        r.write_default_config == !config_dir_exists,
        r.create_local_dir == !local_dir_exists,
{
    SetupPlan {
        create_config_dir: !config_dir_exists,
        write_default_config: !config_dir_exists,
        create_local_dir: !local_dir_exists,
    }
}

/// The configuration that the launcher writes when it has none.
pub fn create_config_file() -> (r: TomlTable)
    ensures
        is_default_config(r@),
{
    proof {
        lemma_keys_distinct();
    }
    let mut last_values = TomlTable::new();
    last_values.insert_text("playername", "");
    last_values.insert_text("serverip", "");
    last_values.insert_text("serverport", "");
    last_values.insert_text("queryport", "");
    last_values.insert_text("steamexe", "default");
    last_values.insert_text("customsteamexe", "");
    last_values.insert_text("profilename", "");
    assert(last_values@.dom() =~= last_value_keys());
    let mut main = TomlTable::new();
    main.insert_text("version", "0.1.0");
    main.insert_text("dayz-cli-launcher-version", "0.5.3");
    main.insert_table("last_values", last_values);
    assert(main@.dom() =~= set!["version"@, "dayz-cli-launcher-version"@, "last_values"@]);
    let mut config = TomlTable::new();
    config.insert_table("main", main);
    assert(config@.dom() =~= set!["main"@]);
    config
}

/// Stores a profile under `profile_name` in `main.profiles`, which is
/// replaced by a table that holds this profile alone.
pub fn save_new_profile(
    config: TomlTable,
    profile_name: &str,
    playername: &str,
    serverip: &str,
    serverport: &str,
    queryport: &str,
    steamexe: &str,
    customsteamexe: &str,
) -> (r: TomlTable)
    requires
        table_at(config@, "main"@) is Some,
    ensures
        saved_profile(
            config@,
            r@,
            profile_name@,
            ProfileView {
                playername: playername@,
                serverip: serverip@,
                serverport: serverport@,
                queryport: queryport@,
                steamexe: steamexe@,
                customsteamexe: customsteamexe@,
            },
        ),
        profile_table(r@, profile_name@) is Some,
        text_at(profile_table(r@, profile_name@)->0, "playername"@) == Some(playername@),
        text_at(profile_table(r@, profile_name@)->0, "serverip"@) == Some(serverip@),
        text_at(profile_table(r@, profile_name@)->0, "serverport"@) == Some(serverport@),
        text_at(profile_table(r@, profile_name@)->0, "queryport"@) == Some(queryport@),
        text_at(profile_table(r@, profile_name@)->0, "steamexe"@) == Some(steamexe@),
        text_at(profile_table(r@, profile_name@)->0, "customsteamexe"@) == Some(customsteamexe@),
{
    proof {
        lemma_keys_distinct();
    }
    let ghost before = config@;
    let mut config = config;
    match config.remove("main") {
        Some(TomlItem::Table(main)) => {
            let mut main = main;
            let ghost m0 = main@;
            let mut profile = TomlTable::new();
            profile.insert_text("playername", playername);
            profile.insert_text("serverip", serverip);
            profile.insert_text("serverport", serverport);
            profile.insert_text("queryport", queryport);
            profile.insert_text("steamexe", steamexe);
            profile.insert_text("customsteamexe", customsteamexe);
            assert(profile@.dom() =~= profile_keys());
            let mut profiles = TomlTable::new();
            profiles.insert_table(profile_name, profile);
            assert(profiles@.dom() =~= set![profile_name@]);
            main.insert_table("profiles", profiles);
            config.insert_table("main", main);
            assert(config@ =~= before.insert("main"@, config@["main"@]));
            config
        },
        _ => {
            proof {
                assert(false);
            }
            config
        },
    }
}

/// The profile stored under `profile_name` in `main.profiles`; `None` where
/// a table on the way, or a text of the profile, is missing.
fn find_profile(config: &TomlTable, profile_name: &str) -> (r: Option<Profile>)
    ensures
        match r {
            Some(p) => stored_profile(config@, profile_name@) == Some(p@),
            None => stored_profile(config@, profile_name@) is None,
        },
        r matches Some(p) ==> {
            let q = profile_table(config@, profile_name@)->0;
            &&& profile_table(config@, profile_name@) is Some
            &&& text_at(q, "playername"@) == Some(p.playername@)
            &&& text_at(q, "serverip"@) == Some(p.serverip@)
            &&& text_at(q, "serverport"@) == Some(p.serverport@)
            &&& text_at(q, "queryport"@) == Some(p.queryport@)
            &&& text_at(q, "steamexe"@) == Some(p.steamexe@)
            &&& text_at(q, "customsteamexe"@) == Some(p.customsteamexe@)
        },
{
    let main = config.get_table("main")?;
    let profiles = main.get_table("profiles")?;
    let profile = profiles.get_table(profile_name)?;
    let playername = profile.get_text("playername")?;
    let serverip = profile.get_text("serverip")?;
    let serverport = profile.get_text("serverport")?;
    let queryport = profile.get_text("queryport")?;
    let steamexe = profile.get_text("steamexe")?;
    let customsteamexe = profile.get_text("customsteamexe")?;
    Some(Profile { playername, serverip, serverport, queryport, steamexe, customsteamexe })
}

/// Whether a complete profile is stored under `profile_name` in `main.profiles`.
pub fn has_profile(config: &TomlTable, profile_name: &str) -> (r: bool)
    ensures
        r == stored_profile(config@, profile_name@) is Some,
{
    find_profile(config, profile_name).is_some()
}

/// The profile stored under `profile_name` in `main.profiles`.
pub fn load_profile(config: &TomlTable, profile_name: &str) -> (r: Profile)
    requires
        stored_profile(config@, profile_name@) is Some,
    ensures
        stored_profile(config@, profile_name@) == Some(r@),
        text_at(profile_table(config@, profile_name@)->0, "playername"@) == Some(r.playername@),
        text_at(profile_table(config@, profile_name@)->0, "serverip"@) == Some(r.serverip@),
        text_at(profile_table(config@, profile_name@)->0, "serverport"@) == Some(r.serverport@),
        text_at(profile_table(config@, profile_name@)->0, "queryport"@) == Some(r.queryport@),
        text_at(profile_table(config@, profile_name@)->0, "steamexe"@) == Some(r.steamexe@),
        text_at(profile_table(config@, profile_name@)->0, "customsteamexe"@) == Some(
            r.customsteamexe@,
        ),
{
    match find_profile(config, profile_name) {
        Some(p) => p,
        None => {
            proof {
                assert(false);
            }
            Profile {
                playername: String::new(),
                serverip: String::new(),
                serverport: String::new(),
                queryport: String::new(),
                steamexe: String::new(),
                customsteamexe: String::new(),
            }
        },
    }
}

/// Whether the last-used values can be read: an error where the
/// configuration file does not exist, or where `main` has no entry
/// `last_values`.
pub fn return_defaults(config: &TomlTable, config_file_exists: bool) -> (r: Result<(), String>)
    requires
        table_at(config@, "main"@) is Some,
    ensures
        r is Ok <==> config_file_exists && table_at(config@, "main"@)->0.contains_key(
            "last_values"@,
        ),
        r matches Err(e) ==> e@ == (if !config_file_exists {
            "Config file does not exist"@
        } else {
            "last_values table does not exist"@
        }),
{
    let main = match config.get_table("main") {
        Some(m) => m,
        None => {
            proof {
                assert(false);
            }
            return Err(String::new());
        },
    };
    if !config_file_exists {
        Err(String::from_str("Config file does not exist"))
    } else if main.contains_key("last_values") {
        Ok(())
    } else {
        Err(String::from_str("last_values table does not exist"))
    }
}

/// The last-used values stored in `main.last_values`; `None` where a table
/// on the way, or one of the texts, is missing.
pub fn read_last_values(config: &TomlTable) -> (r: Option<LastValues>)
    ensures
        match r {
            Some(v) => stored_last_values(config@) == Some(v@),
            None => stored_last_values(config@) is None,
        },
        r matches Some(v) ==> {
            let l = last_values_table(config@)->0;
            &&& last_values_table(config@) is Some
            &&& text_at(l, "playername"@) == Some(v.playername@)
            &&& text_at(l, "serverip"@) == Some(v.serverip@)
            &&& text_at(l, "serverport"@) == Some(v.serverport@)
            &&& text_at(l, "queryport"@) == Some(v.queryport@)
            &&& text_at(l, "steamexe"@) == Some(v.steamexe@)
            &&& text_at(l, "customsteamexe"@) == Some(v.customsteamexe@)
            &&& text_at(l, "profilename"@) == Some(v.profilename@)
        },
{
    let main = config.get_table("main")?;
    let last_values = main.get_table("last_values")?;
    let playername = last_values.get_text("playername")?;
    let serverip = last_values.get_text("serverip")?;
    let serverport = last_values.get_text("serverport")?;
    let queryport = last_values.get_text("queryport")?;
    let steamexe = last_values.get_text("steamexe")?;
    let customsteamexe = last_values.get_text("customsteamexe")?;
    let profilename = last_values.get_text("profilename")?;
    Some(
        LastValues {
            playername,
            serverip,
            serverport,
            queryport,
            steamexe,
            customsteamexe,
            profilename,
        },
    )
}

/// Whether the configuration has a table `main` that has a table under `key`.
pub fn has_main_table(config: &TomlTable, key: &str) -> (r: bool)
    ensures
        r == main_has_table(config@, key@),
{
    match config.get_table("main") {
        Some(main) => main.get_table(key).is_some(),
        None => false,
    }
}

/// Sets the keys of `main.last_values` to the texts of `values`.
pub fn update_last_values(config: TomlTable, values: &LastValues) -> (r: TomlTable)
    requires
        main_has_table(config@, "last_values"@),
    ensures
        saved_last_values(config@, r@, values@),
        last_values_table(r@) is Some,
        text_at(last_values_table(r@)->0, "playername"@) == Some(values.playername@),
        text_at(last_values_table(r@)->0, "serverip"@) == Some(values.serverip@),
        text_at(last_values_table(r@)->0, "serverport"@) == Some(values.serverport@),
        text_at(last_values_table(r@)->0, "queryport"@) == Some(values.queryport@),
        text_at(last_values_table(r@)->0, "steamexe"@) == Some(values.steamexe@),
        text_at(last_values_table(r@)->0, "customsteamexe"@) == Some(values.customsteamexe@),
        text_at(last_values_table(r@)->0, "profilename"@) == Some(values.profilename@),
{
    proof {
        lemma_keys_distinct();
    }
    let ghost before = config@;
    let mut config = config;
    match config.remove("main") {
        Some(TomlItem::Table(main)) => {
            let mut main = main;
            let ghost m0 = main@;
            match main.remove("last_values") {
                Some(TomlItem::Table(last_values)) => {
                    let mut last_values = last_values;
                    let ghost l0 = last_values@;
                    last_values.insert_text("playername", values.playername.as_str());
                    last_values.insert_text("serverip", values.serverip.as_str());
                    last_values.insert_text("serverport", values.serverport.as_str());
                    last_values.insert_text("queryport", values.queryport.as_str());
                    last_values.insert_text("steamexe", values.steamexe.as_str());
                    last_values.insert_text("customsteamexe", values.customsteamexe.as_str());
                    last_values.insert_text("profilename", values.profilename.as_str());
                    assert(last_values@.dom() =~= l0.dom().union(last_value_keys()));
                    main.insert_table("last_values", last_values);
                    assert(main@ =~= m0.insert("last_values"@, main@["last_values"@]));
                    config.insert_table("main", main);
                    assert(config@ =~= before.insert("main"@, config@["main"@]));
                    config
                },
                _ => {
                    proof {
                        assert(false);
                    }
                    config
                },
            }
        },
        _ => {
            proof {
                assert(false);
            }
            config
        },
    }
}

/// The names of the profiles listed in the top-level table `profiles`, in
/// ascending order; `None` where the configuration has no such table.
pub fn profile_names(config: &TomlTable) -> (r: Option<Vec<String>>)
    ensures
        r is Some <==> table_at(config@, "profiles"@) is Some,
        r matches Some(names) ==> lists_keys(names@, table_at(config@, "profiles"@)->0),
{
    match config.get_table("profiles") {
        Some(profiles) => {
            let names = profiles.keys();
            assert(table_at(config@, "profiles"@)->0 == profiles@);
            Some(names)
        },
        None => None,
    }
}

/// A profile that was saved is what loading it gives back, and it is the
/// only profile left: loading any other name finds nothing.
pub proof fn lemma_load_after_save(
    before: Map<Seq<char>, TomlValue>,
    after: Map<Seq<char>, TomlValue>,
    name: Seq<char>,
    p: ProfileView,
    other: Seq<char>,
)
    requires
        saved_profile(before, after, name, p),
    ensures
        stored_profile(after, name) == Some(p),
        other != name ==> stored_profile(after, other) is None,
{
}

/// The last-used values that were set are what reading them gives back.
pub proof fn lemma_read_after_update(
    before: Map<Seq<char>, TomlValue>,
    after: Map<Seq<char>, TomlValue>,
    v: LastValuesView,
)
    requires
        saved_last_values(before, after, v),
    ensures
        stored_last_values(after) == Some(v),
{
}

/// A new configuration passes the check on start and gives back the
/// default last-used values, whose Steam choice selects the default install.
pub proof fn lemma_default_config_readable(c: Map<Seq<char>, TomlValue>)
    requires
        is_default_config(c),
    ensures
        main_has_table(c, "last_values"@),
        table_at(c, "main"@)->0.contains_key("last_values"@),
        stored_last_values(c) == Some(default_last_values()),
        crate::steam::steam_dir_from_value(default_last_values().steamexe) == crate::steam::SteamDir::Default,
{
}

/// Saving the same profile again leaves the content as the first save left it.
pub proof fn lemma_save_twice(
    c0: Map<Seq<char>, TomlValue>,
    c1: Map<Seq<char>, TomlValue>,
    c2: Map<Seq<char>, TomlValue>,
    name: Seq<char>,
    p: ProfileView,
)
    requires
        saved_profile(c0, c1, name, p),
        saved_profile(c1, c2, name, p),
    ensures
        c2 == c1,
{
    lemma_keys_distinct();
    let m1 = table_at(c1, "main"@)->0;
    let m2 = table_at(c2, "main"@)->0;
    let ps1 = table_at(m1, "profiles"@)->0;
    let ps2 = table_at(m2, "profiles"@)->0;
    let q1 = table_at(ps1, name)->0;
    let q2 = table_at(ps2, name)->0;
    assert forall|k: Seq<char>| #[trigger] q1.contains_key(k) implies q1[k] == q2[k] by {
        assert(profile_keys().contains(k));
        assert(q2.contains_key(k));
    }
    assert(q1 =~= q2);
    assert(ps1 =~= ps2);
    assert(m1 =~= m2);
    assert(c1 =~= c2);
}

/// A saved profile keeps each of its six texts under the key of its own
/// name in the table `main.profiles.<name>`: the player name under
/// `playername`, the server's address under `serverip`, the server port
/// under `serverport`, the query port under `queryport`, the Steam choice
/// under `steamexe` and the custom path under `customsteamexe`.
pub proof fn lemma_saved_profile_keys(
    before: Map<Seq<char>, TomlValue>,
    after: Map<Seq<char>, TomlValue>,
    name: Seq<char>,
    p: ProfileView,
)
    requires
        saved_profile(before, after, name, p),
    ensures
        profile_table(after, name) is Some,
        text_at(profile_table(after, name)->0, "playername"@) == Some(p.playername),
        text_at(profile_table(after, name)->0, "serverip"@) == Some(p.serverip),
        text_at(profile_table(after, name)->0, "serverport"@) == Some(p.serverport),
        text_at(profile_table(after, name)->0, "queryport"@) == Some(p.queryport),
        text_at(profile_table(after, name)->0, "steamexe"@) == Some(p.steamexe),
        text_at(profile_table(after, name)->0, "customsteamexe"@) == Some(p.customsteamexe),
{
}

/// Loading a profile reads each of its texts from the key of its own name
/// in `main.profiles.<name>`, and finds a profile exactly where all six
/// keys hold text.
pub proof fn lemma_stored_profile_keys(config: Map<Seq<char>, TomlValue>, name: Seq<char>)
    ensures
        stored_profile(config, name) is Some <==> ({
            &&& profile_table(config, name) is Some
            &&& text_at(profile_table(config, name)->0, "playername"@) is Some
            &&& text_at(profile_table(config, name)->0, "serverip"@) is Some
            &&& text_at(profile_table(config, name)->0, "serverport"@) is Some
            &&& text_at(profile_table(config, name)->0, "queryport"@) is Some
            &&& text_at(profile_table(config, name)->0, "steamexe"@) is Some
            &&& text_at(profile_table(config, name)->0, "customsteamexe"@) is Some
        }),
        stored_profile(config, name) matches Some(p) ==> {
            let q = profile_table(config, name)->0;
            &&& text_at(q, "playername"@) == Some(p.playername)
            &&& text_at(q, "serverip"@) == Some(p.serverip)
            &&& text_at(q, "serverport"@) == Some(p.serverport)
            &&& text_at(q, "queryport"@) == Some(p.queryport)
            &&& text_at(q, "steamexe"@) == Some(p.steamexe)
            &&& text_at(q, "customsteamexe"@) == Some(p.customsteamexe)
        },
{
}

/// Storing the last-used values puts each of the seven texts under the key
/// of its own name in `main.last_values`: the player name under
/// `playername` and the profile's name under `profilename`, and so on for
/// the server's address, the two ports, the Steam choice and the custom path.
pub proof fn lemma_saved_last_values_keys(
    before: Map<Seq<char>, TomlValue>,
    after: Map<Seq<char>, TomlValue>,
    v: LastValuesView,
)
    requires
        saved_last_values(before, after, v),
    ensures
        last_values_table(after) is Some,
        text_at(last_values_table(after)->0, "playername"@) == Some(v.playername),
        text_at(last_values_table(after)->0, "serverip"@) == Some(v.serverip),
        text_at(last_values_table(after)->0, "serverport"@) == Some(v.serverport),
        text_at(last_values_table(after)->0, "queryport"@) == Some(v.queryport),
        text_at(last_values_table(after)->0, "steamexe"@) == Some(v.steamexe),
        text_at(last_values_table(after)->0, "customsteamexe"@) == Some(v.customsteamexe),
        text_at(last_values_table(after)->0, "profilename"@) == Some(v.profilename),
{
}

/// Reading the last-used values takes each text from the key of its own
/// name in `main.last_values`, and finds them exactly where all seven keys
/// hold text.
pub proof fn lemma_stored_last_values_keys(config: Map<Seq<char>, TomlValue>)
    ensures
        stored_last_values(config) is Some <==> ({
            &&& last_values_table(config) is Some
            &&& text_at(last_values_table(config)->0, "playername"@) is Some
            &&& text_at(last_values_table(config)->0, "serverip"@) is Some
            &&& text_at(last_values_table(config)->0, "serverport"@) is Some
            &&& text_at(last_values_table(config)->0, "queryport"@) is Some
            &&& text_at(last_values_table(config)->0, "steamexe"@) is Some
            &&& text_at(last_values_table(config)->0, "customsteamexe"@) is Some
            &&& text_at(last_values_table(config)->0, "profilename"@) is Some
        }),
        stored_last_values(config) matches Some(v) ==> {
            let l = last_values_table(config)->0;
            &&& text_at(l, "playername"@) == Some(v.playername)
            &&& text_at(l, "serverip"@) == Some(v.serverip)
            &&& text_at(l, "serverport"@) == Some(v.serverport)
            &&& text_at(l, "queryport"@) == Some(v.queryport)
            &&& text_at(l, "steamexe"@) == Some(v.steamexe)
            &&& text_at(l, "customsteamexe"@) == Some(v.customsteamexe)
            &&& text_at(l, "profilename"@) == Some(v.profilename)
        },
{
}

} // verus!
