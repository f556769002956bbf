//! Start-on-login: which files make Rustle start with the session, what they
//! say, and which steps bring the file system in line with the settings.
//!
//! Carrying out the steps is I/O and stands outside the library.

use vstd::prelude::*;

use crate::paths::{join_path, path_join};
use crate::settings::{LoginMethod, Settings};

verus! {

/// Where start-on-login files go.
#[derive(Debug, Clone, PartialEq, Eq)]
pub struct AutostartPaths {
    /// The XDG config home.
    pub config_home: String,
}

/// `config_home/autostart/rustle.desktop`.
pub open spec fn xdg_autostart_path_of(c: Seq<char>) -> Seq<char> {
    path_join(path_join(c, "autostart"@), "rustle.desktop"@)
}

/// `config_home/systemd/user/rustle.service`.
pub open spec fn systemd_unit_path_of(c: Seq<char>) -> Seq<char> {
    path_join(path_join(c, "systemd/user"@), "rustle.service"@)
}

/// `config_home/systemd/user/default.target.wants`.
pub open spec fn systemd_wants_dir_of(c: Seq<char>) -> Seq<char> {
    path_join(c, "systemd/user/default.target.wants"@)
}

/// `config_home/systemd/user/default.target.wants/rustle.service`.
pub open spec fn systemd_wants_path_of(c: Seq<char>) -> Seq<char> {
    path_join(systemd_wants_dir_of(c), "rustle.service"@)
}

impl AutostartPaths {
    /// The config home from the environment: `XDG_CONFIG_HOME`, else
    /// `$HOME/.config`.
    pub fn from_environment(xdg_config_home: Option<String>, home: Option<String>) -> (r: Result<Self, String>)
        ensures
            match (xdg_config_home, home) {
                (Some(x), _) => r matches Ok(p) && p.config_home@ == x@,
                (None, Some(h)) => r matches Ok(p) && p.config_home@ == path_join(h@, ".config"@),
                (None, None) => r matches Err(m) && m@ == "HOME or XDG_CONFIG_HOME must be set for start-on-login"@,
            },
    {
        match xdg_config_home {
            Some(x) => Ok(AutostartPaths { config_home: x }),
            None => match home {
                Some(h) => Ok(AutostartPaths { config_home: join_path(h.as_str(), ".config") }),
                None => Err("HOME or XDG_CONFIG_HOME must be set for start-on-login".to_owned()),
            },
        }
    }

    /// The XDG autostart entry.
    pub fn xdg_autostart_path(&self) -> (r: String)
        ensures
            r@ == xdg_autostart_path_of(self.config_home@),
    {
        let dir = join_path(self.config_home.as_str(), "autostart");
        join_path(dir.as_str(), "rustle.desktop")
    }

    /// The systemd user unit.
    pub fn systemd_unit_path(&self) -> (r: String)
        ensures
            r@ == systemd_unit_path_of(self.config_home@),
    {
        let dir = join_path(self.config_home.as_str(), "systemd/user");
        join_path(dir.as_str(), "rustle.service")
    }

    /// The directory of units wanted by the default target.
    pub fn systemd_wants_dir(&self) -> (r: String)
        ensures
            r@ == systemd_wants_dir_of(self.config_home@),
    {
        join_path(self.config_home.as_str(), "systemd/user/default.target.wants")
    }

    /// The link that enables the unit.
    pub fn systemd_wants_path(&self) -> (r: String)
        ensures
            r@ == systemd_wants_path_of(self.config_home@),
    {
        let dir = self.systemd_wants_dir();
        join_path(dir.as_str(), "rustle.service")
    }
}

/// The XDG desktop entry that starts `executable`.
pub open spec fn desktop_entry_of(executable: Seq<char>) -> Seq<char> {
    "[Desktop Entry]\nType=Application\nVersion=1.0\nName=Rustle\nComment=Tray-first meeting notes app\nExec="@
        + executable + "\nTerminal=false\nX-GNOME-Autostart-enabled=true\n"@
}

/// The XDG desktop entry.
pub fn desktop_entry_contents(executable: &str) -> (r: String)
    ensures
        r@ == desktop_entry_of(executable@),
{
    let mut r = "[Desktop Entry]\nType=Application\nVersion=1.0\nName=Rustle\nComment=Tray-first meeting notes app\nExec=".to_owned();
    r.append(executable);
    r.append("\nTerminal=false\nX-GNOME-Autostart-enabled=true\n");
    r
}

/// The systemd user unit that starts `executable`.
pub open spec fn systemd_unit_of(executable: Seq<char>) -> Seq<char> {
    "[Unit]\nDescription=Rustle tray application\n\n[Service]\nType=simple\nExecStart="@ + executable
        + "\nRestart=on-failure\nRestartSec=5\n\n[Install]\nWantedBy=default.target\n"@
}

/// The systemd user unit.
pub fn systemd_unit_contents(executable: &str) -> (r: String)
    ensures
        r@ == systemd_unit_of(executable@),
{
    let mut r = "[Unit]\nDescription=Rustle tray application\n\n[Service]\nType=simple\nExecStart=".to_owned();
    r.append(executable);
    r.append("\nRestart=on-failure\nRestartSec=5\n\n[Install]\nWantedBy=default.target\n");
    r
}

/// One file-system step of start-on-login.
#[derive(Debug, Clone, PartialEq, Eq)]
pub enum AutostartStep {
    /// Remove a file; a missing file is fine.
    Remove(String),
    /// Create a directory and its parents.
    CreateDir(String),
    /// Write a file.
    Write { path: String, contents: String },
    /// Make `link` a symbolic link to `target`.
    Symlink { target: String, link: String },
}

/// Model of an [`AutostartStep`].
pub enum StepView {
    Remove(Seq<char>),
    CreateDir(Seq<char>),
    Write(Seq<char>, Seq<char>),
    Symlink(Seq<char>, Seq<char>),
}

impl View for AutostartStep {
    type V = StepView;

    open spec fn view(&self) -> StepView {
        match self {
            AutostartStep::Remove(p) => StepView::Remove(p@),
            AutostartStep::CreateDir(p) => StepView::CreateDir(p@),
            AutostartStep::Write { path, contents } => StepView::Write(path@, contents@),
            AutostartStep::Symlink { target, link } => StepView::Symlink(target@, link@),
        }
    }
}

/// The steps that match the settings, in order: without start-on-login every
/// artefact goes; otherwise the other method's artefacts go and this
/// method's are written.
pub open spec fn reconcile_steps(start_on_login: bool, method: LoginMethod, c: Seq<char>, exe: Seq<char>) -> Seq<StepView> {
    let remove_xdg = seq![StepView::Remove(xdg_autostart_path_of(c))];
    let remove_systemd = seq![StepView::Remove(systemd_wants_path_of(c)), StepView::Remove(systemd_unit_path_of(c))];
    if !start_on_login {
        remove_xdg + remove_systemd
    } else {
        match method {
            LoginMethod::Xdg => remove_systemd + seq![
                StepView::CreateDir(path_join(c, "autostart"@)),
                StepView::Write(xdg_autostart_path_of(c), desktop_entry_of(exe)),
            ],
            LoginMethod::Systemd => remove_xdg + seq![
                StepView::CreateDir(path_join(c, "systemd/user"@)),
                StepView::Write(systemd_unit_path_of(c), systemd_unit_of(exe)),
                StepView::CreateDir(systemd_wants_dir_of(c)),
                StepView::Remove(systemd_wants_path_of(c)),
                StepView::Symlink(systemd_unit_path_of(c), systemd_wants_path_of(c)),
            ],
        }
    }
}

/// The steps that bring start-on-login in line with the settings; they are
/// carried out in order and stop at the first failure.
pub fn reconcile_plan(settings: &Settings, paths: &AutostartPaths, executable: &str) -> (r: Vec<AutostartStep>)
    ensures
        r@.map_values(|s: AutostartStep| s@) == reconcile_steps(
            settings.general.start_on_login,
            settings.general.start_on_login_method,
            paths.config_home@,
            executable@,
        ),
{
    let mut steps: Vec<AutostartStep> = Vec::new();
    let xdg = paths.xdg_autostart_path();
    let unit = paths.systemd_unit_path();
    let wants = paths.systemd_wants_path();
    if !settings.general.start_on_login {
        steps.push(AutostartStep::Remove(xdg));
        steps.push(AutostartStep::Remove(wants));
        steps.push(AutostartStep::Remove(unit));
    } else {
        match settings.general.start_on_login_method {
            LoginMethod::Xdg => {
                steps.push(AutostartStep::Remove(wants));
                steps.push(AutostartStep::Remove(unit));
                steps.push(AutostartStep::CreateDir(join_path(paths.config_home.as_str(), "autostart")));
                steps.push(AutostartStep::Write { path: xdg, contents: desktop_entry_contents(executable) });
            },
            LoginMethod::Systemd => {
                steps.push(AutostartStep::Remove(xdg));
                steps.push(AutostartStep::CreateDir(join_path(paths.config_home.as_str(), "systemd/user")));
                steps.push(AutostartStep::Write { path: unit.clone(), contents: systemd_unit_contents(executable) });
                steps.push(AutostartStep::CreateDir(paths.systemd_wants_dir()));
                steps.push(AutostartStep::Remove(wants.clone()));
                steps.push(AutostartStep::Symlink { target: unit, link: wants });
            },
        }
    }
    assert(steps@.map_values(|s: AutostartStep| s@) =~= reconcile_steps(
        settings.general.start_on_login,
        settings.general.start_on_login_method,
        paths.config_home@,
        executable@,
    ));
    steps
}

} // verus!
