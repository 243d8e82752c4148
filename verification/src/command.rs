//! The command line that starts the game.
use vstd::prelude::*;

use crate::steam::{steam_dir_value, SteamDir};
use crate::text::{join, text_eq};

verus! {

/// The texts of a list of strings.
pub open spec fn texts(v: Seq<String>) -> Seq<Seq<char>> {
    v.map_values(|s: String| s@)
}

/// The arguments that choose how Steam is started, for the choice value
/// `steamexe` and the custom path `custom`: `--steam` and then an empty
/// path for the default install, `flatpak` for the Flatpak, or the custom
/// path; no argument for any other value.
pub open spec fn steam_args(steamexe: Seq<char>, custom: Seq<char>) -> Seq<Seq<char>> {
    if steamexe == "default"@ {
        seq!["--steam"@, Seq::<char>::empty()]
    } else if steamexe == "flatpak"@ {
        seq!["--steam"@, "flatpak"@]
    } else if steamexe == "custom"@ {
        seq!["--steam"@, custom]
    } else {
        seq![]
    }
}

/// What follows `--steam` for a choice: nothing for the default install,
/// `flatpak` for the Flatpak, the custom path for a custom executable.
pub open spec fn steam_path(d: SteamDir, custom: Seq<char>) -> Seq<char> {
    match d {
        SteamDir::Default => Seq::<char>::empty(),
        SteamDir::Flatpak => "flatpak"@,
        SteamDir::Custom => custom,
    }
}

/// The arguments that every launch passes: the player's name, the server's
/// address and port, and its query port.
pub open spec fn session_args(
    playername: Seq<char>,
    serverip: Seq<char>,
    serverport: Seq<char>,
    queryport: Seq<char>,
) -> Seq<Seq<char>> {
    seq![
        "--launch"@,
        "--name"@,
        playername,
        "--server"@,
        serverip + ":"@ + serverport,
        "--port"@,
        queryport,
    ]
}

/// All the arguments of the launcher's command line.
pub open spec fn launch_args_spec(
    playername: Seq<char>,
    serverip: Seq<char>,
    serverport: Seq<char>,
    queryport: Seq<char>,
    steamexe: Seq<char>,
    customsteamexe: Seq<char>,
) -> Seq<Seq<char>> {
    steam_args(steamexe, customsteamexe) + session_args(playername, serverip, serverport, queryport)
}

/// The directory that holds the command-line launcher.
pub fn cli_script_dir() -> (r: String)
    ensures
        r@ == "/usr/bin"@,
{
    String::from_str("/usr/bin")
}

/// The program that starts the game: the command-line launcher.
pub fn launcher_program() -> (r: String)
    ensures
        r@ == "/usr/bin"@ + "/dayz-launcher"@,
{
    let dir = cli_script_dir();
    join(dir.as_str(), "/dayz-launcher")
}

/// The arguments of the launcher's command line. The steam choice
/// `steamexe` is compared with the lower-case values "default", "flatpak"
/// and "custom"; any other value adds no Steam argument.
pub fn launch_args(
    playername: &str,
    serverip: &str,
    serverport: &str,
    queryport: &str,
    steamexe: &str,
    customsteamexe: &str,
) -> (r: Vec<String>)
    ensures
        texts(r@) == launch_args_spec(
            playername@,
            serverip@,
            serverport@,
            queryport@,
            steamexe@,
            customsteamexe@,
        ),
        r@.len() >= 7,
        texts(r@).subrange(r@.len() - 7, r@.len() as int) == (seq![
            "--launch"@,
            "--name"@,
            playername@,
            "--server"@,
            serverip@ + ":"@ + serverport@,
            "--port"@,
            queryport@,
        ]),
        steamexe@ == "default"@ ==> texts(r@).subrange(0, 2) == (seq![
            "--steam"@,
            Seq::<char>::empty(),
        ]),
        steamexe@ == "flatpak"@ ==> texts(r@).subrange(0, 2) == (seq!["--steam"@, "flatpak"@]),
        steamexe@ == "custom"@ ==> texts(r@).subrange(0, 2) == (seq!["--steam"@, customsteamexe@]),
        steamexe@ != "default"@ && steamexe@ != "flatpak"@ && steamexe@ != "custom"@ ==> r@.len()
            == 7,
{
    let mut args: Vec<String> = Vec::new();
    if text_eq(steamexe, "default") {
        args.push(String::from_str("--steam"));
        args.push(String::new());
    } else if text_eq(steamexe, "flatpak") {
        args.push(String::from_str("--steam"));
        args.push(String::from_str("flatpak"));
    } else if text_eq(steamexe, "custom") {
        args.push(String::from_str("--steam"));
        args.push(String::from_str(customsteamexe));
    }
    let ghost prefix = texts(args@);
    proof {
        reveal_strlit("default");
        reveal_strlit("flatpak");
        reveal_strlit("custom");
        assert("flatpak"@[0] != "default"@[0]);
        assert("custom"@[0] != "default"@[0]);
        assert("custom"@[0] != "flatpak"@[0]);
    }
    assert(prefix =~= steam_args(steamexe@, customsteamexe@));
    args.push(String::from_str("--launch"));
    args.push(String::from_str("--name"));
    args.push(String::from_str(playername));
    args.push(String::from_str("--server"));
    let address = join(serverip, ":");
    args.push(join(address.as_str(), serverport));
    args.push(String::from_str("--port"));
    args.push(String::from_str(queryport));
    assert(texts(args@) =~= prefix + session_args(
        playername@,
        serverip@,
        serverport@,
        queryport@,
    ));
    assert(texts(args@).subrange(args@.len() - 7, args@.len() as int) =~= session_args(
        playername@,
        serverip@,
        serverport@,
        queryport@,
    ));
    assert(args@.len() >= 9 ==> texts(args@).subrange(0, 2) =~= prefix);
    args
}

/// The value of each Steam choice reaches the command line: `--steam`
/// followed by the choice's path, before the session arguments.
pub proof fn lemma_choice_reaches_command(
    d: SteamDir,
    playername: Seq<char>,
    serverip: Seq<char>,
    serverport: Seq<char>,
    queryport: Seq<char>,
    customsteamexe: Seq<char>,
)
    ensures
        launch_args_spec(
            playername,
            serverip,
            serverport,
            queryport,
            steam_dir_value(d),
            customsteamexe,
        ) == seq!["--steam"@, steam_path(d, customsteamexe)] + session_args(
            playername,
            serverip,
            serverport,
            queryport,
        ),
{
    reveal_strlit("default");
    reveal_strlit("flatpak");
    reveal_strlit("custom");
    assert("flatpak"@[0] != "default"@[0]);
    assert("custom"@[0] != "default"@[0]);
    assert("custom"@[0] != "flatpak"@[0]);
    assert(steam_args(steam_dir_value(d), customsteamexe) =~= seq![
        "--steam"@,
        steam_path(d, customsteamexe),
    ]);
}

/// Every command line ends with the seven session arguments, as given:
/// `--launch`, `--name` and the player name, `--server` and the server's
/// address and port joined by a colon, `--port` and the query port; before
/// them stand at most two Steam arguments.
pub proof fn lemma_launch_args_shape(
    playername: Seq<char>,
    serverip: Seq<char>,
    serverport: Seq<char>,
    queryport: Seq<char>,
    steamexe: Seq<char>,
    customsteamexe: Seq<char>,
)
    ensures
        ({
            let a = launch_args_spec(
                playername,
                serverip,
                serverport,
                queryport,
                steamexe,
                customsteamexe,
            );
            &&& 7 <= a.len() <= 9
            &&& a[a.len() - 7] == "--launch"@
            &&& a[a.len() - 6] == "--name"@
            &&& a[a.len() - 5] == playername
            &&& a[a.len() - 4] == "--server"@
            &&& a[a.len() - 3] == serverip + ":"@ + serverport
            &&& a[a.len() - 2] == "--port"@
            &&& a[a.len() - 1] == queryport
        }),
{
}

/// The Steam arguments for each choice's value: `--steam` and an empty
/// path for the default install, `--steam flatpak` for the Flatpak, and
/// `--steam` with the custom path as given for a custom executable.
pub proof fn lemma_steam_args_by_choice(
    d: SteamDir,
    playername: Seq<char>,
    serverip: Seq<char>,
    serverport: Seq<char>,
    queryport: Seq<char>,
    customsteamexe: Seq<char>,
)
    ensures
        ({
            let a = launch_args_spec(
                playername,
                serverip,
                serverport,
                queryport,
                steam_dir_value(d),
                customsteamexe,
            );
            &&& a.len() == 9
            &&& a[0] == "--steam"@
            &&& a[1] == match d {
                SteamDir::Default => Seq::<char>::empty(),
                SteamDir::Flatpak => "flatpak"@,
                SteamDir::Custom => customsteamexe,
            }
        }),
{
    lemma_choice_reaches_command(d, playername, serverip, serverport, queryport, customsteamexe);
}

} // verus!
