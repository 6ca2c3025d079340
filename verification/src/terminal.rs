//! Opening a project folder in a terminal or in the code editor.

use vstd::prelude::*;
use crate::model::{ToolCommand, ToolView};
use crate::text::{concat, owned};

verus! {

/// The desktop system the launcher runs on.
#[derive(Clone, Copy, PartialEq, Eq, Structural, Debug)]
pub enum DesktopOs {
    MacOs,
    Windows,
    Linux,
    /// A system with no terminal the launcher knows of.
    Other,
}

/// Which of the Linux terminals the launcher knows are installed.
#[derive(Clone, Copy, Debug)]
pub struct InstalledTerminals {
    pub gnome_terminal: bool,
    pub konsole: bool,
    pub xfce4_terminal: bool,
    pub xterm: bool,
}

/// The command that opens a terminal in `path`: Terminal on macOS, `cmd` on
/// Windows, and on Linux the first installed of GNOME Terminal, Konsole, the
/// Xfce terminal and xterm. `None` on a system with no known terminal.
pub open spec fn terminal_view(os: DesktopOs, path: Seq<char>, installed: InstalledTerminals) -> Result<
    Option<ToolView>,
    Seq<char>,
> {
    match os {
        DesktopOs::MacOs => Ok(
            Some(ToolView { program: "open"@, args: seq!["-a"@, "Terminal"@, path] }),
        ),
        DesktopOs::Windows => Ok(
            Some(
                ToolView {
                    program: "cmd"@,
                    args: seq!["/C"@, "start"@, ""@, "cmd.exe"@, "/K"@, "cd"@, "/d"@, path],
                },
            ),
        ),
        DesktopOs::Linux => if installed.gnome_terminal {
            Ok(
                Some(
                    ToolView {
                        program: "gnome-terminal"@,
                        args: seq!["--working-directory="@ + path],
                    },
                ),
            )
        } else if installed.konsole {
            Ok(Some(ToolView { program: "konsole"@, args: seq!["--workdir"@, path] }))
        } else if installed.xfce4_terminal {
            Ok(
                Some(
                    ToolView {
                        program: "xfce4-terminal"@,
                        args: seq!["--working-directory"@, path],
                    },
                ),
            )
        } else if installed.xterm {
            Ok(
                Some(
                    ToolView {
                        program: "xterm"@,
                        args: seq![
                            "-e"@,
                            "sh"@,
                            "-lc"@,
                            "cd \"$1\" && exec \"${SHELL:-sh}\""@,
                            "prolaunch-terminal"@,
                            path,
                        ],
                    },
                ),
            )
        } else {
            Err("No supported terminal found"@)
        },
        DesktopOs::Other => Ok(None),
    }
}

/// A tool command from a program and its arguments.
fn tool(program: &str, args: Vec<String>) -> (r: ToolCommand)
    ensures
        r.deep_view() == (ToolView { program: program@, args: args.deep_view() }),
{
    ToolCommand { program: owned(program), args }
}

/// The command that opens a terminal in `path`, or that no known terminal
/// is installed.
pub fn terminal_command(os: DesktopOs, path: &str, installed: &InstalledTerminals) -> (r: Result<
    Option<ToolCommand>,
    String,
>)
    ensures
        match terminal_view(os, path@, *installed) {
            Ok(Some(t)) => r matches Ok(Some(c)) && c.deep_view() == t,
            Ok(None) => r matches Ok(None),
            Err(e) => r matches Err(m) && m@ == e,
        },
{
    match os {
        DesktopOs::MacOs => {
            let args = vec![owned("-a"), owned("Terminal"), owned(path)];
            assert(args.deep_view() =~= seq!["-a"@, "Terminal"@, path@]);
            Ok(Some(tool("open", args)))
        },
        DesktopOs::Windows => {
            let args = vec![
                owned("/C"),
                owned("start"),
                owned(""),
                owned("cmd.exe"),
                owned("/K"),
                owned("cd"),
                owned("/d"),
                owned(path),
            ];
            assert(args.deep_view() =~= seq![
                "/C"@,
                "start"@,
                ""@,
                "cmd.exe"@,
                "/K"@,
                "cd"@,
                "/d"@,
                path@,
            ]);
            Ok(Some(tool("cmd", args)))
        },
        DesktopOs::Linux => {
            if installed.gnome_terminal {
                let args = vec![concat("--working-directory=", path)];
                assert(args.deep_view() =~= seq!["--working-directory="@ + path@]);
                Ok(Some(tool("gnome-terminal", args)))
            } else if installed.konsole {
                let args = vec![owned("--workdir"), owned(path)];
                assert(args.deep_view() =~= seq!["--workdir"@, path@]);
                Ok(Some(tool("konsole", args)))
            } else if installed.xfce4_terminal {
                let args = vec![owned("--working-directory"), owned(path)];
                assert(args.deep_view() =~= seq!["--working-directory"@, path@]);
                Ok(Some(tool("xfce4-terminal", args)))
            } else if installed.xterm {
                let args = vec![
                    owned("-e"),
                    owned("sh"),
                    owned("-lc"),
                    owned("cd \"$1\" && exec \"${SHELL:-sh}\""),
                    owned("prolaunch-terminal"),
                    owned(path),
                ];
                assert(args.deep_view() =~= seq![
                    "-e"@,
                    "sh"@,
                    "-lc"@,
                    "cd \"$1\" && exec \"${SHELL:-sh}\""@,
                    "prolaunch-terminal"@,
                    path@,
                ]);
                Ok(Some(tool("xterm", args)))
            } else {
                Err(owned("No supported terminal found"))
            }
        },
        DesktopOs::Other => Ok(None),
    }
}

/// The command that opens `path` in Visual Studio Code.
pub fn editor_command(path: &str) -> (r: ToolCommand)
    ensures
        r.deep_view() == (ToolView { program: "code"@, args: seq![path@] }),
{
    let args = vec![owned(path)];
    assert(args.deep_view() =~= seq![path@]);
    tool("code", args)
}

} // verus!
