use lupin::apps::AppConfig;
use lupin::disguise::ProcessDisguise;

#[test]
fn default_apps_catalog_is_complete() {
    let apps = AppConfig::get_default_apps();
    assert_eq!(apps.len(), 5);
    let names: Vec<&str> = apps.iter().map(|a| a.name.as_str()).collect();
    assert_eq!(names, ["Visual Studio Code", "Chrome", "Terminal", "Slack", "Notion"]);
    assert_eq!(apps[0].path, "/Applications/Visual Studio Code.app/Contents/MacOS/Electron");
    assert_eq!(apps[1].args, vec!["--new-window".to_string()]);
    assert!(apps[0].args.is_empty());
    for (app, icon) in apps.iter().zip([
        "vscode.png",
        "chrome.png",
        "terminal.png",
        "slack.png",
        "notion.png",
    ]) {
        assert_eq!(app.icon.as_deref(), Some(icon));
    }
}

#[test]
fn installed_check_follows_the_disk() {
    let mut app = AppConfig::get_default_apps().remove(2);
    app.path = "/".to_string();
    assert!(app.is_installed());
    app.path = "/this/path/does/not/exist/anywhere".to_string();
    assert!(!app.is_installed());
}

#[test]
fn disguise_catalog_is_complete() {
    let disguises = ProcessDisguise::get_available_disguises();
    assert_eq!(disguises.len(), 8);
    let names: Vec<&str> = disguises.iter().map(|d| d.name.as_str()).collect();
    assert_eq!(
        names,
        [
            "system_update",
            "chrome_helper",
            "runtime_broker",
            "software_reporter",
            "com.apple.WebKit",
            "WindowServer",
            "mdworker",
            "kernel_task",
        ]
    );
    assert_eq!(disguises[0].description, "System Update Service");
    assert_eq!(disguises[7].description, "Kernel Task");
}
