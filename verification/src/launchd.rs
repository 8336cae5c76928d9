//! The LaunchAgent that starts the daemon at login: its property list and
//! the launchctl domain it is bootstrapped into.

use crate::paths::{join, path_join, Paths, BUNDLE_ID};
use crate::text::{decimal, push_decimal};
use vstd::prelude::*;

verus! {

/// Path of the daemon executable inside the application bundle.
pub open spec fn spec_agent_executable(app_bundle_path: Seq<char>) -> Seq<char> {
    app_bundle_path + "/Contents/MacOS/mxbattery"@
}

pub fn agent_executable(app_bundle_path: &str) -> (r: String)
    ensures
        r@ == spec_agent_executable(app_bundle_path@),
{
    String::from_str(app_bundle_path).concat("/Contents/MacOS/mxbattery")
}

/// `gui/<uid>`, the launchd domain of the user's login session.
pub fn launchctl_domain(uid: u32) -> (r: String)
    ensures
        r@ == "gui/"@ + decimal(uid as nat),
{
    let mut s = String::from_str("gui/");
    push_decimal(&mut s, uid as u64);
    s
}

/// The property list: label, program, run at load, keep alive, and the two
/// log files.
pub open spec fn spec_plist(label: Seq<char>, exe: Seq<char>, out: Seq<char>, err: Seq<char>) -> Seq<
    char,
> {
    PLIST_HEAD@ + label + PLIST_AFTER_LABEL@ + exe + PLIST_AFTER_EXE@ + out + PLIST_AFTER_OUT@
        + err + PLIST_TAIL@
}

pub const PLIST_HEAD: &'static str = "<?xml version=\"1.0\" encoding=\"UTF-8\"?>
<!DOCTYPE plist PUBLIC \"-//Apple//DTD PLIST 1.0//EN\" \"http://www.apple.com/DTDs/PropertyList-1.0.dtd\">
<plist version=\"1.0\">
<dict>
    <key>Label</key><string>";

pub const PLIST_AFTER_LABEL: &'static str = "</string>
    <key>ProgramArguments</key>
    <array>
        <string>";

pub const PLIST_AFTER_EXE: &'static str = "</string>
    </array>
    <key>RunAtLoad</key><true/>
    <key>KeepAlive</key><true/>
    <key>StandardOutPath</key><string>";

pub const PLIST_AFTER_OUT: &'static str = "</string>
    <key>StandardErrorPath</key><string>";

pub const PLIST_TAIL: &'static str = "</string>
</dict>
</plist>
";

pub fn plist_text(label: &str, exe: &str, out: &str, err: &str) -> (r: String)
    ensures
        r@ == spec_plist(label@, exe@, out@, err@),
{
    let mut s = String::from_str(PLIST_HEAD);
    s.append(label);
    s.append(PLIST_AFTER_LABEL);
    s.append(exe);
    s.append(PLIST_AFTER_EXE);
    s.append(out);
    s.append(PLIST_AFTER_OUT);
    s.append(err);
    s.append(PLIST_TAIL);
    s
}

/// The LaunchAgent for the bundle at `app_bundle_path`, logging to
/// `daemon.log` and `daemon.err.log` in the application-support directory.
pub fn launch_agent_plist_text(paths: &Paths, app_bundle_path: &str) -> (r: String)
    ensures
        r@ == spec_plist(
            BUNDLE_ID@,
            spec_agent_executable(app_bundle_path@),
            path_join(paths.root_view(), "daemon.log"@),
            path_join(paths.root_view(), "daemon.err.log"@),
        ),
{
    let exe = agent_executable(app_bundle_path);
    let dir = paths.app_support_dir();
    let out = join(dir.as_str(), "daemon.log");
    let err = join(dir.as_str(), "daemon.err.log");
    plist_text(BUNDLE_ID, exe.as_str(), out.as_str(), err.as_str())
}

} // verus!
