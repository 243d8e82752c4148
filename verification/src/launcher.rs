//! The state of the launcher's window and the changes that its controls make.
use vstd::prelude::*;

use crate::command::{
    launch_args, launch_args_spec, lemma_launch_args_shape, lemma_steam_args_by_choice, texts,
};
use crate::config::{
    save_new_profile, saved_last_values, saved_profile, stored_last_values, main_has_table,
    update_last_values, LastValues, LastValuesView, ProfileView,
};
use crate::steam::{steam_dir_from_value, steam_dir_name, steam_dir_value, SteamDir};
use crate::table::{table_at, TomlTable, TomlValue};

verus! {

/// The text shown in the custom-path field when no path was stored.
pub open spec fn custom_path_hint() -> Seq<char> {
    "Click \"Browse\" or enter path to steam executable"@
}

/// What the launcher's window shows and remembers.
pub struct DayzLinuxGuiLauncher {
    /// The player's name in the game.
    pub playername: String,
    /// The server's address.
    pub serverip: String,
    /// The server's port.
    pub serverport: String,
    /// The server's query port.
    pub queryport: String,
    /// How Steam is started.
    pub steamexe: SteamDir,
    /// The path of a custom Steam executable; `None` after a file dialog
    /// was closed without a choice.
    pub customsteamexe: Option<String>,
    /// The custom path that was shown before the last file dialog.
    pub _customsteamexe: Option<String>,
    /// Whether the help text on the Steam choices is shown.
    pub steamexehelp: bool,
    /// The name under which a profile is saved.
    pub profilename: String,
}

impl DayzLinuxGuiLauncher {
    /// A path to fall back on is always at hand.
    pub open spec fn wf(&self) -> bool {
        self._customsteamexe is Some
    }

    /// The window shows the last-used values `v`.
    pub open spec fn shows_last_values(&self, v: LastValuesView) -> bool {
        &&& self.playername@ == v.playername
        &&& self.serverip@ == v.serverip
        &&& self.serverport@ == v.serverport
        &&& self.queryport@ == v.queryport
        &&& self.steamexe == steam_dir_from_value(v.steamexe)
        &&& self.customsteamexe matches Some(c) && c@ == v.customsteamexe
        &&& self._customsteamexe matches Some(c) && c@ == Seq::<char>::empty()
        &&& !self.steamexehelp
        &&& self.profilename@ == v.profilename
    }

    /// The window shows empty fields and a hint in the custom-path field.
    pub open spec fn shows_nothing_stored(&self) -> bool {
        &&& self.playername@ == Seq::<char>::empty()
        &&& self.serverip@ == Seq::<char>::empty()
        &&& self.serverport@ == Seq::<char>::empty()
        &&& self.queryport@ == Seq::<char>::empty()
        &&& self.steamexe == SteamDir::Default
        &&& self.customsteamexe matches Some(c) && c@ == custom_path_hint()
        &&& self._customsteamexe matches Some(c) && c@ == Seq::<char>::empty()
        &&& !self.steamexehelp
        &&& self.profilename@ == Seq::<char>::empty()
    }

    /// The values that closing the window stores: the Steam choice under
    /// its shown name, and the custom path; `None` without a custom path.
    pub open spec fn closing_values(&self) -> Option<LastValuesView> {
        match self.customsteamexe {
            Some(c) => Some(
                LastValuesView {
                    playername: self.playername@,
                    serverip: self.serverip@,
                    serverport: self.serverport@,
                    queryport: self.queryport@,
                    steamexe: steam_dir_name(self.steamexe),
                    customsteamexe: c@,
                    profilename: self.profilename@,
                },
            ),
            None => None,
        }
    }

    /// The state after the help button.
    pub open spec fn help_toggled(self) -> Self {
        DayzLinuxGuiLauncher { steamexehelp: !self.steamexehelp, ..self }
    }

    /// The state after the Steam choice box selects `choice`.
    pub open spec fn steam_dir_selected(self, choice: SteamDir) -> Self {
        DayzLinuxGuiLauncher { steamexe: choice, ..self }
    }

    /// The state after the file dialog closed with `selection`.
    pub open spec fn browsed(self, selection: Option<String>) -> Self {
        DayzLinuxGuiLauncher {
            customsteamexe: selection,
            _customsteamexe: self.customsteamexe,
            ..self
        }
    }

    /// The state after the custom-path field is shown: with a custom choice
    /// and no path shown, the path to fall back on is shown.
    pub open spec fn restored(self) -> Self {
        if self.steamexe == SteamDir::Custom && self.customsteamexe is None {
            DayzLinuxGuiLauncher { customsteamexe: self._customsteamexe, ..self }
        } else {
            self
        }
    }

    /// The window showing the last-used values `values`.
    pub fn from_last_values(values: LastValues) -> (r: Self)
        ensures
            r.wf(),
            r.shows_last_values(values@),
    {
        let steamexe = SteamDir::from_value(values.steamexe.as_str());
        DayzLinuxGuiLauncher {
            playername: values.playername,
            serverip: values.serverip,
            serverport: values.serverport,
            queryport: values.queryport,
            steamexe,
            customsteamexe: Some(values.customsteamexe),
            _customsteamexe: Some(String::new()),
            steamexehelp: false,
            profilename: values.profilename,
        }
    }

    /// The window when no last-used values can be read.
    pub fn nothing_stored() -> (r: Self)
        ensures
            r.wf(),
            r.shows_nothing_stored(),
    {
        DayzLinuxGuiLauncher {
            playername: String::new(),
            serverip: String::new(),
            serverport: String::new(),
            queryport: String::new(),
            steamexe: SteamDir::Default,
            customsteamexe: Some(
                String::from_str("Click \"Browse\" or enter path to steam executable"),
            ),
            _customsteamexe: Some(String::new()),
            steamexehelp: false,
            profilename: String::new(),
        }
    }

    /// The window on start: where the check of the configuration
    /// (`return_defaults`) succeeded, the stored last-used values, which
    /// must then be at hand (`None` where they are not); otherwise empty
    /// fields.
    pub fn initial(defaults: &Result<(), String>, last_values: Option<LastValues>) -> (r: Option<
        Self,
    >)
        ensures
            match defaults {
                Ok(_) => match last_values {
                    Some(v) => r matches Some(s) && s.wf() && s.shows_last_values(v@),
                    None => r is None,
                },
                Err(_) => r matches Some(s) && s.wf() && s.shows_nothing_stored(),
            },
    {
        match defaults {
            Ok(_) => match last_values {
                Some(v) => Some(DayzLinuxGuiLauncher::from_last_values(v)),
                None => None,
            },
            Err(_) => Some(DayzLinuxGuiLauncher::nothing_stored()),
        }
    }

    /// The help button shows or hides the help text.
    pub fn toggle_help(&mut self)
        ensures
            *final(self) == old(self).help_toggled(),
            final(self).steamexehelp == !old(self).steamexehelp,
            *final(self) == (DayzLinuxGuiLauncher {
                steamexehelp: !old(self).steamexehelp,
                ..*old(self)
            }),
    {
        self.steamexehelp = !self.steamexehelp;
    }

    /// The Steam choice box selects `choice`.
    pub fn select_steam_dir(&mut self, choice: SteamDir)
        ensures
            *final(self) == old(self).steam_dir_selected(choice),
            final(self).steamexe == choice,
            *final(self) == (DayzLinuxGuiLauncher { steamexe: choice, ..*old(self) }),
    {
        self.steamexe = choice;
    }

    /// The file dialog closed with `selection`: the path shown so far
    /// becomes the one to fall back on, and the selection is shown.
    pub fn browse_selected(&mut self, selection: Option<String>)
        requires
            old(self).customsteamexe is Some,
        ensures
            *final(self) == old(self).browsed(selection),
            final(self).wf(),
            final(self).customsteamexe == selection,
            final(self)._customsteamexe == old(self).customsteamexe,
            *final(self) == (DayzLinuxGuiLauncher {
                customsteamexe: selection,
                _customsteamexe: old(self).customsteamexe,
                ..*old(self)
            }),
    {
        let shown = match &self.customsteamexe {
            Some(c) => c.clone(),
            None => String::new(),
        };
        self._customsteamexe = Some(shown);
        self.customsteamexe = selection;
    }

    /// With a custom Steam path chosen and none shown, the path to fall
    /// back on is shown again.
    pub fn restore_custom_path(&mut self)
        requires
            old(self).steamexe == SteamDir::Custom && old(self).customsteamexe is None
                ==> old(self)._customsteamexe is Some,
        ensures
            old(self).wf() ==> final(self).wf(),
            *final(self) == old(self).restored(),
            old(self).customsteamexe is Some ==> *final(self) == *old(self),
            old(self).steamexe != SteamDir::Custom ==> *final(self) == *old(self),
            old(self).steamexe == SteamDir::Custom && old(self).customsteamexe is None
                ==> *final(self) == (DayzLinuxGuiLauncher {
                customsteamexe: old(self)._customsteamexe,
                ..*old(self)
            }),
    {
        if self.steamexe == SteamDir::Custom && self.customsteamexe.is_none() {
            let fallback = match &self._customsteamexe {
                Some(c) => c.clone(),
                None => String::new(),
            };
            self.customsteamexe = Some(fallback);
        }
    }

    /// The command-line arguments of a launch from the window: the value
    /// of the Steam choice and the custom path are passed on.
    pub fn launch_args(&self) -> (r: Vec<String>)
        requires
            self.customsteamexe is Some,
        ensures
            texts(r@) == launch_args_spec(
                self.playername@,
                self.serverip@,
                self.serverport@,
                self.queryport@,
                steam_dir_value(self.steamexe),
                self.customsteamexe->0@,
            ),
            r@.len() == 9,
            texts(r@)[0] == "--steam"@,
            texts(r@)[1] == match self.steamexe {
                SteamDir::Default => Seq::<char>::empty(),
                SteamDir::Flatpak => "flatpak"@,
                SteamDir::Custom => self.customsteamexe->0@,
            },
            texts(r@).subrange(2, 9) == (seq![
                "--launch"@,
                "--name"@,
                self.playername@,
                "--server"@,
                self.serverip@ + ":"@ + self.serverport@,
                "--port"@,
                self.queryport@,
            ]),
    {
        proof {
            lemma_steam_args_by_choice(
                self.steamexe,
                self.playername@,
                self.serverip@,
                self.serverport@,
                self.queryport@,
                self.customsteamexe->0@,
            );
            lemma_launch_args_shape(
                self.playername@,
                self.serverip@,
                self.serverport@,
                self.queryport@,
                steam_dir_value(self.steamexe),
                self.customsteamexe->0@,
            );
        }
        let steam = self.steamexe.value();
        let custom = match &self.customsteamexe {
            Some(c) => c.clone(),
            None => String::new(),
        };
        launch_args(
            self.playername.as_str(),
            self.serverip.as_str(),
            self.serverport.as_str(),
            self.queryport.as_str(),
            steam.as_str(),
            custom.as_str(),
        )
    }

    /// The values that closing the window stores.
    pub fn last_values(&self) -> (r: Option<LastValues>)
        ensures
            match r {
                Some(v) => self.closing_values() == Some(v@),
                None => self.closing_values() is None,
            },
    {
        match &self.customsteamexe {
            Some(custom) => Some(
                LastValues {
                    playername: self.playername.clone(),
                    serverip: self.serverip.clone(),
                    serverport: self.serverport.clone(),
                    queryport: self.queryport.clone(),
                    steamexe: self.steamexe.name(),
                    customsteamexe: custom.clone(),
                    profilename: self.profilename.clone(),
                },
            ),
            None => None,
        }
    }

    /// Saves the shown values as the profile named in the window, in place
    /// of all stored profiles; the Steam choice is stored under its shown
    /// name.
    pub fn save_profile(&self, config: TomlTable) -> (r: TomlTable)
        requires
            self.customsteamexe is Some,
            table_at(config@, "main"@) is Some,
        ensures
            saved_profile(
                config@,
                r@,
                self.profilename@,
                ProfileView {
                    playername: self.playername@,
                    serverip: self.serverip@,
                    serverport: self.serverport@,
                    queryport: self.queryport@,
                    steamexe: steam_dir_name(self.steamexe),
                    customsteamexe: self.customsteamexe->0@,
                },
            ),
    {
        let steam = self.steamexe.name();
        let custom = match &self.customsteamexe {
            Some(c) => c.clone(),
            None => String::new(),
        };
        save_new_profile(
            config,
            self.profilename.as_str(),
            self.playername.as_str(),
            self.serverip.as_str(),
            self.serverport.as_str(),
            self.queryport.as_str(),
            steam.as_str(),
            custom.as_str(),
        )
    }

    /// Closing the window: the shown values are set into `main.last_values`.
    pub fn on_close_event(&self, config: TomlTable) -> (r: TomlTable)
        requires
            self.customsteamexe is Some,
            main_has_table(config@, "last_values"@),
        ensures
            saved_last_values(config@, r@, self.closing_values()->0),
    {
        match self.last_values() {
            Some(values) => update_last_values(config, &values),
            None => {
                proof {
                    assert(false);
                }
                config
            },
        }
    }
}

/// Closing the window and starting it again on the stored values gives back
/// every text field and the custom path.
pub proof fn lemma_close_then_reopen(
    s: DayzLinuxGuiLauncher,
    before: Map<Seq<char>, TomlValue>,
    after: Map<Seq<char>, TomlValue>,
    reopened: DayzLinuxGuiLauncher,
)
    requires
        s.closing_values() is Some,
        saved_last_values(before, after, s.closing_values()->0),
        reopened.shows_last_values(stored_last_values(after)->0),
    ensures
        stored_last_values(after) == s.closing_values(),
        reopened.playername@ == s.playername@,
        reopened.serverip@ == s.serverip@,
        reopened.serverport@ == s.serverport@,
        reopened.queryport@ == s.queryport@,
        reopened.profilename@ == s.profilename@,
        reopened.customsteamexe->0@ == s.customsteamexe->0@,
{
}

/// A frame of the window's Steam row: a choice is selected, the help may be
/// toggled, the file dialog may run (its button is shown for a custom
/// choice only) and close with any selection or none, and the custom-path
/// field is shown. A frame that starts with a shown path and a path to fall
/// back on ends with both, so the launch, save and close buttons always
/// find a custom path.
pub proof fn lemma_frame_keeps_paths(
    s: DayzLinuxGuiLauncher,
    choice: SteamDir,
    help_clicked: bool,
    dialog: Option<Option<String>>,
)
    requires
        s.customsteamexe is Some,
        s._customsteamexe is Some,
    ensures
        ({
            let s1 = s.steam_dir_selected(choice);
            let s2 = if help_clicked {
                s1.help_toggled()
            } else {
                s1
            };
            let s3 = match dialog {
                Some(selection) => if s2.steamexe == SteamDir::Custom {
                    s2.browsed(selection)
                } else {
                    s2
                },
                None => s2,
            };
            let s4 = s3.restored();
            s4.customsteamexe is Some && s4._customsteamexe is Some
        }),
{
}

/// Selecting a Steam choice makes it the window's choice, whatever was
/// selected before, and leaves every other field as it was; of two
/// selections in a row the second decides.
pub proof fn lemma_select_steam_dir(s: DayzLinuxGuiLauncher, a: SteamDir, b: SteamDir)
    ensures
        s.steam_dir_selected(a).steamexe == a,
        s.steam_dir_selected(a).playername == s.playername,
        s.steam_dir_selected(a).serverip == s.serverip,
        s.steam_dir_selected(a).serverport == s.serverport,
        s.steam_dir_selected(a).queryport == s.queryport,
        s.steam_dir_selected(a).customsteamexe == s.customsteamexe,
        s.steam_dir_selected(a)._customsteamexe == s._customsteamexe,
        s.steam_dir_selected(a).steamexehelp == s.steamexehelp,
        s.steam_dir_selected(a).profilename == s.profilename,
        s.steam_dir_selected(a).steam_dir_selected(b) == s.steam_dir_selected(b),
        s.steam_dir_selected(s.steamexe) == s,
{
}

/// After a Steam choice is selected, a launch from the window passes
/// `--steam` followed by that choice's path: an empty path for the default
/// install, `flatpak` for the Flatpak, the shown custom path otherwise.
pub proof fn lemma_selected_choice_launches(s: DayzLinuxGuiLauncher, choice: SteamDir)
    requires
        s.customsteamexe is Some,
    ensures
        ({
            let t = s.steam_dir_selected(choice);
            let a = launch_args_spec(
                t.playername@,
                t.serverip@,
                t.serverport@,
                t.queryport@,
                steam_dir_value(t.steamexe),
                t.customsteamexe->0@,
            );
            &&& a.len() == 9
            &&& a[0] == "--steam"@
            &&& a[1] == match choice {
                SteamDir::Default => Seq::<char>::empty(),
                SteamDir::Flatpak => "flatpak"@,
                SteamDir::Custom => s.customsteamexe->0@,
            }
        }),
{
    let t = s.steam_dir_selected(choice);
    lemma_steam_args_by_choice(
        choice,
        t.playername@,
        t.serverip@,
        t.serverport@,
        t.queryport@,
        t.customsteamexe->0@,
    );
}

/// The help button flips whether the help text is shown and changes nothing
/// else; pressed twice, it leaves the window as it was.
pub proof fn lemma_toggle_help(s: DayzLinuxGuiLauncher)
    ensures
        s.help_toggled().steamexehelp == !s.steamexehelp,
        s.help_toggled().steamexe == s.steamexe,
        s.help_toggled().customsteamexe == s.customsteamexe,
        s.help_toggled().help_toggled() == s,
{
}

/// Closing the file dialog shows its selection, or no path where it was
/// cancelled, and keeps the path shown before as the one to fall back on;
/// all other fields stay.
pub proof fn lemma_browse(s: DayzLinuxGuiLauncher, selection: Option<String>)
    ensures
        s.browsed(selection).customsteamexe == selection,
        s.browsed(selection)._customsteamexe == s.customsteamexe,
        s.browsed(selection).steamexe == s.steamexe,
        s.browsed(selection).playername == s.playername,
        s.browsed(selection).profilename == s.profilename,
{
}

/// Showing the custom-path field changes the window only where the choice
/// is a custom executable and no path is shown: then the path to fall back
/// on is shown. A shown path, and any state with another choice, stay as
/// they are; showing the field twice is showing it once.
pub proof fn lemma_restore_custom_path(s: DayzLinuxGuiLauncher)
    ensures
        s.customsteamexe is Some ==> s.restored() == s,
        s.steamexe != SteamDir::Custom ==> s.restored() == s,
        s.steamexe == SteamDir::Custom && s.customsteamexe is None ==> s.restored().customsteamexe
            == s._customsteamexe,
        s.restored().steamexe == s.steamexe,
        s.restored()._customsteamexe == s._customsteamexe,
        s.restored().restored() == s.restored(),
{
}

/// A file chosen in the dialog stays shown when the custom-path field is
/// shown; a cancelled dialog with a custom choice shows again the path that
/// was shown before it.
pub proof fn lemma_browse_then_restore(s: DayzLinuxGuiLauncher, chosen: String)
    requires
        s.customsteamexe is Some,
    ensures
        s.browsed(Some(chosen)).restored().customsteamexe == Some(chosen),
        s.steamexe == SteamDir::Custom ==> s.browsed(None).restored().customsteamexe
            == s.customsteamexe,
        s.steamexe != SteamDir::Custom ==> s.browsed(None).restored().customsteamexe is None,
{
}

} // verus!
