//! The persisted agent document and the in-memory shared state.
//!
//! One `Config` document lives on disk; one `AppInfo` wraps it in memory
//! together with the `running` flag that every long-lived loop polls.
//! The transport around the library serializes the document and guards
//! `AppInfo` behind its lock; everything the actors decide about the
//! state is here, on plain values.

use vstd::prelude::*;
use crate::auth::UserInfo;
use crate::scan::str_eq;

verus! {

/// The persisted document: credentials, the entry URL of the last
/// successful login (diagnostics), and the cached root for logout calls.
/// An absent or empty file means all fields empty.
#[derive(Clone, Debug)]
pub struct Config {
    pub user: Option<UserInfo>,
    pub last_login_url: Option<String>,
    pub logout_url_base: Option<String>,
}

impl Default for Config {
    /// The document of a fresh install: nothing stored yet.
    fn default() -> (r: Config)
        ensures
            r.user is None,
            r.last_login_url is None,
            r.logout_url_base is None,
    {
        Config { user: None, last_login_url: None, logout_url_base: None }
    }
}

impl Config {
    /// The stored credentials, if any.
    pub fn user(&self) -> (r: Option<&UserInfo>)
        ensures
            r is Some <==> self.user is Some,
            r matches Some(u) ==> self.user == Some(*u),
    {
        match &self.user {
            Some(u) => Some(u),
            None => None,
        }
    }

    /// Store credentials; the cached URLs stay.
    pub fn set_user(&mut self, user: UserInfo)
        ensures
            final(self).user == Some(user),
            final(self).last_login_url == old(self).last_login_url,
            final(self).logout_url_base == old(self).logout_url_base,
    {
        self.user = Some(user);
    }

    /// Cache the entry URL of a successful login.
    pub fn set_last_url(&mut self, url: String)
        ensures
            final(self).last_login_url == Some(url),
            final(self).user == old(self).user,
            final(self).logout_url_base == old(self).logout_url_base,
    {
        self.last_login_url = Some(url);
    }

    /// The cached entry URL, if any.
    pub fn last_url(&self) -> (r: Option<&str>)
        ensures
            r is Some <==> self.last_login_url is Some,
            r matches Some(s) ==> (self.last_login_url matches Some(f) && s@ == f@),
    {
        match &self.last_login_url {
            Some(s) => Some(s.as_str()),
            None => None,
        }
    }

    /// Cache the logout root of a successful login.
    pub fn set_logout_url_base(&mut self, url: String)
        ensures
            final(self).logout_url_base == Some(url),
            final(self).user == old(self).user,
            final(self).last_login_url == old(self).last_login_url,
    {
        self.logout_url_base = Some(url);
    }

    /// The cached logout root, if any.
    pub fn logout_url_base(&self) -> (r: Option<&str>)
        ensures
            r is Some <==> self.logout_url_base is Some,
            r matches Some(s) ==> (self.logout_url_base matches Some(f) && s@ == f@),
    {
        match &self.logout_url_base {
            Some(s) => Some(s.as_str()),
            None => None,
        }
    }
}

/// The in-memory agent state: the current document, the path it came
/// from, and the cooperative `running` flag.  The flag starts true and
/// only [`AppInfo::stop`] clears it; no operation sets it again, so it
/// falls exactly once, and every long-lived loop exits within one poll of
/// it falling.
#[derive(Clone, Debug)]
pub struct AppInfo {
    pub config: Config,
    pub path: String,
    pub running: bool,
}

impl AppInfo {
    /// Wrap a loaded (or fresh) document; the agent starts running.
    pub fn new(conf: Config, path: String) -> (r: AppInfo)
        ensures
            r.config == conf,
            r.path == path,
            r.running,
    {
        AppInfo { config: conf, path, running: true }
    }

    /// The current document.
    pub fn config(&self) -> (r: &Config)
        ensures
            *r == self.config,
    {
        &self.config
    }

    /// Whether the agent is still meant to run.
    pub fn running(&self) -> (r: bool)
        ensures
            r == self.running,
    {
        self.running
    }

    /// Ask every loop to wind down.  Idempotent: the flag only falls.
    pub fn stop(&mut self)
        ensures
            !final(self).running,
            final(self).config == old(self).config,
            final(self).path == old(self).path,
    {
        self.running = false;
    }
}

/// What the config watcher does with a reread file: a document that
/// parsed replaces the in-memory one wholesale (an external edit may
/// clear fields); a file that did not parse is presumed transiently
/// inconsistent and changes nothing.
pub fn apply_watcher_reload(state: &mut AppInfo, parsed: Option<Config>)
    ensures
        parsed matches Some(c) ==> final(state).config == c,
        parsed is None ==> final(state).config == old(state).config,
        final(state).running == old(state).running,
        final(state).path == old(state).path,
{
    match parsed {
        Some(c) => {
            state.config = c;
        },
        None => {},
    }
}

/// Some event path is exactly the config path.
pub open spec fn names_path(paths: Seq<String>, conf_path: Seq<char>) -> bool {
    exists|i: int| 0 <= i < paths.len() && (#[trigger] paths[i])@ == conf_path
}

/// Whether a watcher event warrants a reload: only a completed write
/// naming exactly the config path does; partial or metadata-only events
/// must not make the watcher read a half-written file.
pub fn watcher_event_applies(write_completed: bool, paths: &Vec<String>, conf_path: &str) -> (r:
    bool)
    ensures
        r == (write_completed && names_path(paths@, conf_path@)),
{
    if !write_completed {
        return false;
    }
    let mut i: usize = 0;
    while i < paths.len()
        invariant
            write_completed,
            0 <= i <= paths@.len(),
            forall|j: int| 0 <= j < i ==> (#[trigger] paths@[j])@ != conf_path@,
        decreases paths@.len() - i,
    {
        if str_eq(paths[i].as_str(), conf_path) {
            proof {
                assert(0 <= i < paths@.len() && (paths@[i as int])@ == conf_path@);
            }
            return true;
        }
        i += 1;
    }
    false
}

} // verus!
