use vstd::prelude::*;
use crate::error::WallError;
use crate::text::{lower_of, lowercase, same_text};

verus! {

/// The desktop environments whose wallpaper can be set.
#[derive(PartialEq, Eq, Debug, Clone, Copy, Structural)]
pub enum DesktopEnv {
    Gnome,
    DWM,
    Hyprland,
    Other,
}

/// The desktop that a lower-case session name stands for.
pub open spec fn desktop_named(name: Seq<char>) -> DesktopEnv {
    if name == "hyprland"@ {
        DesktopEnv::Hyprland
    } else if name == "gnome"@ {
        DesktopEnv::Gnome
    } else if name == "dwm"@ {
        DesktopEnv::DWM
    } else {
        DesktopEnv::Other
    }
}

/// The desktop that a lower-case session name stands for.
pub fn desktop_of_lowered(name: &str) -> (r: DesktopEnv)
    ensures
        r == desktop_named(name@),
{
    if same_text(name, "hyprland") {
        DesktopEnv::Hyprland
    } else if same_text(name, "gnome") {
        DesktopEnv::Gnome
    } else if same_text(name, "dwm") {
        DesktopEnv::DWM
    } else {
        DesktopEnv::Other
    }
}

/// The desktop of a session, from the session's desktop name if one is set;
/// letter case does not matter.
pub fn get_desktop_env(session_desktop: Option<&str>) -> (r: DesktopEnv)
    ensures
        r == match session_desktop {
            Some(name) => desktop_named(lower_of(name@)),
            None => DesktopEnv::Other,
        },
{
    match session_desktop {
        Some(name) => {
            let lowered = lowercase(name);
            desktop_of_lowered(&lowered)
        },
        None => DesktopEnv::Other,
    }
}

/// One run of an outside program, whose exit status is checked.
#[derive(Debug, Clone, PartialEq, Eq)]
pub struct Command {
    pub program: String,
    pub args: Vec<String>,
}

impl View for Command {
    type V = (Seq<char>, Seq<Seq<char>>);

    open spec fn view(&self) -> (Seq<char>, Seq<Seq<char>>) {
        (self.program@, self.args@.map_values(|a: String| a@))
    }
}

pub open spec fn hyprpaper(args: Seq<Seq<char>>) -> (Seq<char>, Seq<Seq<char>>) {
    ("hyprctl"@, seq!["hyprpaper"@] + args)
}

/// The gsettings run that sets one key of the desktop background.
pub open spec fn gsettings(key: Seq<char>, value: Seq<char>) -> (Seq<char>, Seq<Seq<char>>) {
    ("gsettings"@, seq!["set"@, "org.gnome.desktop.background"@, key, value])
}

/// The hyprpaper runs that show `path` on the first `n` of `monitors`: all
/// loaded images are dropped, then for each monitor the file is loaded and
/// assigned.
pub open spec fn hyprland_plan(path: Seq<char>, monitors: Seq<Seq<char>>, n: int) -> Seq<(Seq<char>, Seq<Seq<char>>)>
    decreases n,
{
    if n <= 0 {
        seq![hyprpaper(seq!["unload"@, "all"@])]
    } else {
        hyprland_plan(path, monitors, n - 1) + seq![
            hyprpaper(seq!["preload"@, path]),
            hyprpaper(seq!["wallpaper"@, monitors[n - 1] + ","@ + path]),
        ]
    }
}

/// How many monitors get the wallpaper: all of them, or only the first.
pub open spec fn monitors_served(multiple_monitors: bool, count: int) -> int {
    if multiple_monitors || count == 0 {
        count
    } else {
        1
    }
}

/// The runs that set the wallpaper file `path` on desktop `env`, or `None`
/// when there is no way to set one there.
pub open spec fn wallpaper_plan(
    path: Seq<char>,
    env: DesktopEnv,
    multiple_monitors: bool,
    monitors: Seq<Seq<char>>,
) -> Option<Seq<(Seq<char>, Seq<Seq<char>>)>> {
    match env {
        DesktopEnv::Gnome => Some(
            seq![
                gsettings("picture-uri"@, "file:///"@ + path),
                gsettings("picture-uri-dark"@, "file:///"@ + path),
                gsettings("picture-options"@, "\"zoom\""@),
            ],
        ),
        DesktopEnv::Hyprland => Some(
            hyprland_plan(path, monitors, monitors_served(multiple_monitors, monitors.len() as int)),
        ),
        DesktopEnv::DWM => Some(
            seq![("xwallpaper"@, seq!["--clear"@]), ("xwallpaper"@, seq!["--zoom"@, path])],
        ),
        DesktopEnv::Other => None,
    }
}

pub open spec fn plan_view(cmds: Seq<Command>) -> Seq<(Seq<char>, Seq<Seq<char>>)> {
    cmds.map_values(|c: Command| c@)
}

fn command(program: &str, args: Vec<String>) -> (r: Command)
    ensures
        r@ == (program@, args@.map_values(|a: String| a@)),
{
    Command { program: String::from_str(program), args }
}

fn texts1(a: &str) -> (r: Vec<String>)
    ensures
        r@.map_values(|s: String| s@) == seq![a@],
{
    let mut v: Vec<String> = Vec::new();
    v.push(String::from_str(a));
    proof {
        assert(v@.map_values(|s: String| s@) =~= seq![a@]);
    }
    v
}

fn texts2(a: &str, b: &str) -> (r: Vec<String>)
    ensures
        r@.map_values(|s: String| s@) == seq![a@, b@],
{
    let mut v: Vec<String> = Vec::new();
    v.push(String::from_str(a));
    v.push(String::from_str(b));
    proof {
        assert(v@.map_values(|s: String| s@) =~= seq![a@, b@]);
    }
    v
}

fn texts3(a: &str, b: &str, c: &str) -> (r: Vec<String>)
    ensures
        r@.map_values(|s: String| s@) == seq![a@, b@, c@],
{
    let mut v: Vec<String> = Vec::new();
    v.push(String::from_str(a));
    v.push(String::from_str(b));
    v.push(String::from_str(c));
    proof {
        assert(v@.map_values(|s: String| s@) =~= seq![a@, b@, c@]);
    }
    v
}

fn texts4(a: &str, b: &str, c: &str, d: &str) -> (r: Vec<String>)
    ensures
        r@.map_values(|s: String| s@) == seq![a@, b@, c@, d@],
{
    let mut v: Vec<String> = Vec::new();
    v.push(String::from_str(a));
    v.push(String::from_str(b));
    v.push(String::from_str(c));
    v.push(String::from_str(d));
    proof {
        assert(v@.map_values(|s: String| s@) =~= seq![a@, b@, c@, d@]);
    }
    v
}

fn hyprpaper_run(a: &str, b: &str) -> (r: Command)
    ensures
        r@ == hyprpaper(seq![a@, b@]),
{
    let c = command("hyprctl", texts3("hyprpaper", a, b));
    proof {
        assert(c@.1 =~= seq!["hyprpaper"@] + seq![a@, b@]);
    }
    c
}

fn gsettings_run(key: &str, value: &str) -> (r: Command)
    ensures
        r@ == gsettings(key@, value@),
{
    command("gsettings", texts4("set", "org.gnome.desktop.background", key, value))
}

/// The runs that set the wallpaper file `file_path` on desktop `desktop_env`,
/// on each of the `monitors` or only on the first of them; fails on a desktop
/// with no way to set a wallpaper.
pub fn apply_wallpaper(
    file_path: &str,
    desktop_env: DesktopEnv,
    multiple_monitors: bool,
    monitors: &Vec<String>,
) -> (r: Result<Vec<Command>, WallError>)
    ensures
        match wallpaper_plan(
            file_path@,
            desktop_env,
            multiple_monitors,
            monitors@.map_values(|m: String| m@),
        ) {
            Some(plan) => r is Ok && plan_view(r->Ok_0@) == plan,
            None => r == Err::<Vec<Command>, WallError>(WallError::UnsupportedEnvironment),
        },
{
    let mut cmds: Vec<Command> = Vec::new();
    match desktop_env {
        DesktopEnv::Gnome => {
            let mut uri = String::from_str("file:///");
            uri.append(file_path);
            cmds.push(gsettings_run("picture-uri", &uri));
            cmds.push(gsettings_run("picture-uri-dark", &uri));
            cmds.push(gsettings_run("picture-options", "\"zoom\""));
            proof {
                assert(plan_view(cmds@) =~= wallpaper_plan(
                    file_path@,
                    desktop_env,
                    multiple_monitors,
                    monitors@.map_values(|m: String| m@),
                )->0);
            }
        },
        DesktopEnv::Hyprland => {
            let ghost ms = monitors@.map_values(|m: String| m@);
            let count: usize = if multiple_monitors || monitors.len() == 0 {
                monitors.len()
            } else {
                1
            };
            cmds.push(hyprpaper_run("unload", "all"));
            proof {
                assert(plan_view(cmds@) =~= hyprland_plan(file_path@, ms, 0));
            }
            let mut i: usize = 0;
            while i < count
                invariant
                    count <= monitors@.len(),
                    ms == monitors@.map_values(|m: String| m@),
                    i <= count,
                    plan_view(cmds@) == hyprland_plan(file_path@, ms, i as int),
                decreases count - i,
            {
                let ghost before = cmds@;
                cmds.push(hyprpaper_run("preload", file_path));
                let mut target = monitors[i].clone();
                target.append(",");
                target.append(file_path);
                cmds.push(hyprpaper_run("wallpaper", &target));
                proof {
                    assert(ms[i as int] == monitors@[i as int]@);
                    assert(plan_view(cmds@) =~= plan_view(before) + seq![
                        hyprpaper(seq!["preload"@, file_path@]),
                        hyprpaper(seq!["wallpaper"@, ms[i as int] + ","@ + file_path@]),
                    ]);
                }
                i = i + 1;
            }
        },
        DesktopEnv::DWM => {
            cmds.push(command("xwallpaper", texts1("--clear")));
            cmds.push(command("xwallpaper", texts2("--zoom", file_path)));
            proof {
                assert(plan_view(cmds@) =~= wallpaper_plan(
                    file_path@,
                    desktop_env,
                    multiple_monitors,
                    monitors@.map_values(|m: String| m@),
                )->0);
            }
        },
        DesktopEnv::Other => {
            return Err(WallError::UnsupportedEnvironment);
        },
    }
    Ok(cmds)
}

} // verus!
