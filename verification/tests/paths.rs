use mxbattery::launchd::{launch_agent_plist_text, launchctl_domain};
use mxbattery::paths::{join, Paths};
use std::path::PathBuf;

#[test]
fn paths_under_app_support() {
    let p = Paths::with_root(String::from("/tmp/mxb-test"));
    assert_eq!(PathBuf::from(p.config_file()), PathBuf::from("/tmp/mxb-test/config.toml"));
    assert_eq!(PathBuf::from(p.state_file()), PathBuf::from("/tmp/mxb-test/state.json"));
    assert_eq!(PathBuf::from(p.control_socket()), PathBuf::from("/tmp/mxb-test/control.sock"));
    assert_eq!(PathBuf::from(p.app_support_dir()), PathBuf::from("/tmp/mxb-test"));
}

#[test]
fn launch_agent_path_uses_bundle_id() {
    let p = Paths::with_root(String::from("/tmp/mxb-test"));
    let la = PathBuf::from(p.launch_agent_plist());
    assert!(la.ends_with("Library/LaunchAgents/com.vincentahrend.mxbattery-app.plist"));
}

#[test]
fn standard_paths_under_home() {
    let p = Paths::for_home(String::from("/Users/vincent"));
    assert_eq!(
        p.app_support_dir(),
        "/Users/vincent/Library/Application Support/MXBattery"
    );
    assert_eq!(
        p.launch_agent_plist(),
        "/Users/vincent/Library/LaunchAgents/com.vincentahrend.mxbattery-app.plist"
    );
}

#[test]
fn join_agrees_with_pathbuf() {
    for (base, rel) in [("/a", "b"), ("/a/", "b"), ("", "b"), ("/a", "/b"), ("a", "")] {
        let ours = join(base, rel);
        let std_join = PathBuf::from(base).join(rel);
        assert_eq!(PathBuf::from(&ours), std_join, "{base} + {rel}");
        assert_eq!(ours, std_join.to_str().unwrap());
    }
}

#[test]
fn launch_agent_plist_matches_the_agent_format() {
    let p = Paths::with_root(String::from("/tmp/mxb-test"));
    let text = launch_agent_plist_text(&p, "/Applications/MXBattery.app");
    let expected = format!(r#"<?xml version="1.0" encoding="UTF-8"?>
<!DOCTYPE plist PUBLIC "-//Apple//DTD PLIST 1.0//EN" "http://www.apple.com/DTDs/PropertyList-1.0.dtd">
<plist version="1.0">
<dict>
    <key>Label</key><string>{label}</string>
    <key>ProgramArguments</key>
    <array>
        <string>{exe}</string>
    </array>
    <key>RunAtLoad</key><true/>
    <key>KeepAlive</key><true/>
    <key>StandardOutPath</key><string>{out}</string>
    <key>StandardErrorPath</key><string>{err}</string>
</dict>
</plist>
"#,
        label = "com.vincentahrend.mxbattery-app",
        exe = "/Applications/MXBattery.app/Contents/MacOS/mxbattery",
        out = "/tmp/mxb-test/daemon.log",
        err = "/tmp/mxb-test/daemon.err.log",
    );
    assert_eq!(text, expected);
    assert_eq!(launchctl_domain(501), "gui/501");
}
