//! Where MXBattery keeps its files. Paths are held as text and joined the way
//! `std::path::PathBuf::push` joins them on Unix.

use crate::text::has_prefix;
use vstd::prelude::*;

verus! {

pub const BUNDLE_ID: &'static str = "com.vincentahrend.mxbattery-app";

pub const APP_SUPPORT_DIRNAME: &'static str = "MXBattery";

/// `base` joined with `rel`: an absolute `rel` replaces `base`; otherwise a
/// separator is inserted unless `base` is empty or already ends with one.
pub open spec fn path_join(base: Seq<char>, rel: Seq<char>) -> Seq<char> {
    if rel.len() > 0 && rel[0] == '/' {
        rel
    } else if base.len() == 0 || base.last() == '/' {
        base + rel
    } else {
        base + seq!['/'] + rel
    }
}

/// Joins two paths as `Path::join` does on Unix.
pub fn join(base: &str, rel: &str) -> (r: String)
    ensures
        r@ == path_join(base@, rel@),
{
    let rn = rel.unicode_len();
    if rn > 0 && rel.get_char(0) == '/' {
        return String::from_str(rel);
    }
    let bn = base.unicode_len();
    if bn == 0 || base.get_char(bn - 1) == '/' {
        let mut s = String::from_str(base);
        s.append(rel);
        s
    } else {
        let mut s = String::from_str(base);
        s.append("/");
        proof {
            reveal_strlit("/");
        }
        s.append(rel);
        s
    }
}

#[derive(Clone, Debug)]
pub struct Paths {
    root: String,
    home: String,
}

impl Paths {
    /// The application-support directory.
    pub closed spec fn root_view(&self) -> Seq<char> {
        self.root@
    }

    /// The home directory under which the LaunchAgent lives.
    pub closed spec fn home_view(&self) -> Seq<char> {
        self.home@
    }

    /// The standard locations for the user whose home directory is `home`:
    /// `~/Library/Application Support/MXBattery`.
    pub fn for_home(home: String) -> (p: Self)
        ensures
            p.home_view() == home@,
            p.root_view() == path_join(
                path_join(home@, "Library/Application Support"@),
                APP_SUPPORT_DIRNAME@,
            ),
    {
        let support = join(home.as_str(), "Library/Application Support");
        let root = join(support.as_str(), APP_SUPPORT_DIRNAME);
        Paths { root, home }
    }

    /// Uses `root` both as the application-support directory and as the
    /// home directory for the LaunchAgent path.
    pub fn with_root(root: String) -> (p: Self)
        ensures
            p.root_view() == root@,
            p.home_view() == root@,
    {
        Paths { home: root.clone(), root }
    }

    pub fn app_support_dir(&self) -> (r: String)
        ensures
            r@ == self.root_view(),
    {
        self.root.clone()
    }

    pub fn config_file(&self) -> (r: String)
        ensures
            r@ == path_join(self.root_view(), "config.toml"@),
    {
        join(self.root.as_str(), "config.toml")
    }

    pub fn state_file(&self) -> (r: String)
        ensures
            r@ == path_join(self.root_view(), "state.json"@),
    {
        join(self.root.as_str(), "state.json")
    }

    pub fn control_socket(&self) -> (r: String)
        ensures
            r@ == path_join(self.root_view(), "control.sock"@),
    {
        join(self.root.as_str(), "control.sock")
    }

    /// `~/Library/LaunchAgents/<bundle id>.plist`.
    pub fn launch_agent_plist(&self) -> (r: String)
        ensures
            r@ == path_join(
                path_join(self.home_view(), "Library/LaunchAgents"@),
                BUNDLE_ID@ + ".plist"@,
            ),
    {
        let dir = join(self.home.as_str(), "Library/LaunchAgents");
        let file = String::from_str(BUNDLE_ID).concat(".plist");
        join(dir.as_str(), file.as_str())
    }
}

/// A relative name joined under `dir` stays under `dir`: the result starts
/// with `dir` and then, unless `dir` ends with a separator, a separator.
pub proof fn joined_file_stays_under(dir: Seq<char>, name: Seq<char>)
    requires
        dir.len() > 0,
        !(name.len() > 0 && name[0] == '/'),
    ensures
        has_prefix(path_join(dir, name), dir),
        dir.last() != '/' ==> path_join(dir, name) == dir + seq!['/'] + name,
        dir.last() == '/' ==> path_join(dir, name) == dir + name,
{
    assert(path_join(dir, name).subrange(0, dir.len() as int) =~= dir);
}

/// The configuration, state and socket files all lie directly in the
/// application-support directory.
pub proof fn files_live_in_app_support_dir(p: Paths)
    requires
        p.root_view().len() > 0,
    ensures
        has_prefix(path_join(p.root_view(), "config.toml"@), p.root_view()),
        has_prefix(path_join(p.root_view(), "state.json"@), p.root_view()),
        has_prefix(path_join(p.root_view(), "control.sock"@), p.root_view()),
{
    reveal_strlit("config.toml");
    reveal_strlit("state.json");
    reveal_strlit("control.sock");
    joined_file_stays_under(p.root_view(), "config.toml"@);
    joined_file_stays_under(p.root_view(), "state.json"@);
    joined_file_stays_under(p.root_view(), "control.sock"@);
}

} // verus!
