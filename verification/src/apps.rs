//! The catalog of launchable companion applications: static data the
//! host shell shows and launches. Only the catalog itself and the
//! installed-check live here; launching is the shell's business.

use vstd::prelude::*;
use vstd::string::StringExecFns;

verus! {

/// One launchable application: display name, executable path,
/// arguments and an optional icon asset.
#[derive(Clone, Debug)]
pub struct AppConfig {
    pub name: String,
    pub path: String,
    pub args: Vec<String>,
    pub icon: Option<String>,
}

/// Relies on std::path::Path::exists: whether a filesystem entry is at
/// `path` right now. The machine's disk state decides the answer, so
/// nothing more is stated of it.
#[verifier::external_body]
fn path_exists(path: &str) -> bool {
    std::path::Path::new(path).exists()
}

impl AppConfig {
    /// The stock catalog: five desktop applications, each with its
    /// installation path, launch arguments and icon.
    pub fn get_default_apps() -> (r: Vec<AppConfig>)
        ensures
            r@.len() == 5,
            r@[0].name@ == "Visual Studio Code"@,
            r@[0].path@ == "/Applications/Visual Studio Code.app/Contents/MacOS/Electron"@,
            r@[0].args@.len() == 0,
            r@[0].icon matches Some(i) && i@ == "vscode.png"@,
            r@[1].name@ == "Chrome"@,
            r@[1].path@ == "/Applications/Google Chrome.app/Contents/MacOS/Google Chrome"@,
            r@[1].args@.len() == 1 && r@[1].args@[0]@ == "--new-window"@,
            r@[1].icon matches Some(i) && i@ == "chrome.png"@,
            r@[2].name@ == "Terminal"@,
            r@[2].path@ == "/System/Applications/Utilities/Terminal.app/Contents/MacOS/Terminal"@,
            r@[2].args@.len() == 0,
            r@[2].icon matches Some(i) && i@ == "terminal.png"@,
            r@[3].name@ == "Slack"@,
            r@[3].path@ == "/Applications/Slack.app/Contents/MacOS/Slack"@,
            r@[3].args@.len() == 0,
            r@[3].icon matches Some(i) && i@ == "slack.png"@,
            r@[4].name@ == "Notion"@,
            r@[4].path@ == "/Applications/Notion.app/Contents/MacOS/Notion"@,
            r@[4].args@.len() == 0,
            r@[4].icon matches Some(i) && i@ == "notion.png"@,
    {
        let mut r: Vec<AppConfig> = Vec::new();
        r.push(
            AppConfig {
                name: String::from_str("Visual Studio Code"),
                path: String::from_str("/Applications/Visual Studio Code.app/Contents/MacOS/Electron"),
                args: Vec::new(),
                icon: Some(String::from_str("vscode.png")),
            },
        );
        let mut chrome_args: Vec<String> = Vec::new();
        chrome_args.push(String::from_str("--new-window"));
        r.push(
            AppConfig {
                name: String::from_str("Chrome"),
                path: String::from_str("/Applications/Google Chrome.app/Contents/MacOS/Google Chrome"),
                args: chrome_args,
                icon: Some(String::from_str("chrome.png")),
            },
        );
        r.push(
            AppConfig {
                name: String::from_str("Terminal"),
                path: String::from_str("/System/Applications/Utilities/Terminal.app/Contents/MacOS/Terminal"),
                args: Vec::new(),
                icon: Some(String::from_str("terminal.png")),
            },
        );
        r.push(
            AppConfig {
                name: String::from_str("Slack"),
                path: String::from_str("/Applications/Slack.app/Contents/MacOS/Slack"),
                args: Vec::new(),
                icon: Some(String::from_str("slack.png")),
            },
        );
        r.push(
            AppConfig {
                name: String::from_str("Notion"),
                path: String::from_str("/Applications/Notion.app/Contents/MacOS/Notion"),
                args: Vec::new(),
                icon: Some(String::from_str("notion.png")),
            },
        );
        r
    }

    /// Whether the application's executable is present on this machine.
    /// The disk decides, so the answer carries no further promise.
    pub fn is_installed(&self) -> bool {
        path_exists(self.path.as_str())
    }
}

} // verus!
