//! Where the files of the tool lie: the settings below the home directory,
//! and the streams below the root of a storage.

use vstd::prelude::*;
use vstd::string::StringExecFns;

verus! {

/// The path `rel`, which is relative, below the directory `base`: the two are
/// joined by one `/` unless `base` is empty or ends in one.
pub open spec fn joined(base: Seq<char>, rel: Seq<char>) -> Seq<char> {
    if base.len() == 0 || base.last() == '/' {
        base + rel
    } else {
        base + seq!['/'] + rel
    }
}

/// The text `head`, then `stream`, then `tail`.
pub open spec fn framed(head: Seq<char>, stream: Seq<char>, tail: Seq<char>) -> Seq<char> {
    head + stream + tail
}

/// Joins the relative path `rel` to the directory `base`.
pub fn join(base: &str, rel: &str) -> (path: String)
    ensures
        path@ == joined(base@, rel@),
{
    let n = base.unicode_len();
    let mut path = String::from_str(base);
    if n > 0 && base.get_char(n - 1) != '/' {
        proof {
            reveal_strlit("/");
        }
        path.append("/");
        assert(path@ =~= base@ + seq!['/']);
    }
    path.append(rel);
    path
}

/// The directory of the settings below the home directory `home`.
pub open spec fn settings_directory(home: Seq<char>) -> Seq<char> {
    joined(home, ".skuff"@)
}

/// The root of the storage that is used where nothing names another one.
pub open spec fn default_storage(home: Seq<char>) -> Seq<char> {
    joined(home, ".local/share/skuff"@)
}

/// Computes the root of the default storage below the home directory.
pub fn default_storage_path(home: &str) -> (path: String)
    ensures
        path@ == default_storage(home@),
{
    join(home, ".local/share/skuff")
}

/// The layout of the settings directory.
pub struct SettingsLayout;

impl SettingsLayout {
    /// The settings directory itself.
    pub fn directory(home: &str) -> (path: String)
        ensures
            path@ == settings_directory(home@),
    {
        join(home, ".skuff")
    }

    /// The file that names the storage in use.
    pub fn current_storage(home: &str) -> (path: String)
        ensures
            path@ == joined(settings_directory(home@), "CURRENT_STORAGE"@),
    {
        let directory = SettingsLayout::directory(home);
        join(directory.as_str(), "CURRENT_STORAGE")
    }

    /// The configuration file of the user.
    pub fn config_path(home: &str) -> (path: String)
        ensures
            path@ == joined(settings_directory(home@), "config.json"@),
    {
        let directory = SettingsLayout::directory(home);
        join(directory.as_str(), "config.json")
    }
}

/// The layout of a storage: the directory `root` and what lies below it.
pub struct StorageLayout {
    pub root: String,
}

impl StorageLayout {
    /// The storage to use: the one named explicitly, else the one that the
    /// settings name, else the default storage below `home`.
    pub fn coalesce(explicit: Option<String>, settings: Option<String>, home: &str) -> (layout:
        StorageLayout)
        ensures
            layout.root@ == match (explicit, settings) {
                (Some(path), _) => path@,
                (None, Some(path)) => path@,
                (None, None) => default_storage(home@),
            },
    {
        let root = match explicit {
            Some(path) => path,
            None => match settings {
                Some(path) => path,
                None => default_storage_path(home),
            },
        };
        StorageLayout { root }
    }

    /// The file that holds the events of the stream `stream`.
    pub fn stream_path(&self, stream: &str) -> (path: String)
        ensures
            path@ == joined(self.root@, framed("streams/"@, stream@, "/stream.json"@)),
    {
        let mut rel = String::from_str("streams/");
        rel.append(stream);
        rel.append("/stream.json");
        join(self.root.as_str(), rel.as_str())
    }

    /// The directory that holds one directory for each stream.
    pub fn streams_path(&self) -> (path: String)
        ensures
            path@ == joined(self.root@, "streams"@),
    {
        join(self.root.as_str(), "streams")
    }

    /// The configuration file of the stream `stream`.
    pub fn config_path(&self, stream: &str) -> (path: String)
        ensures
            path@ == joined(self.root@, framed("streams/"@, stream@, "/config.json"@)),
    {
        let mut rel = String::from_str("streams/");
        rel.append(stream);
        rel.append("/config.json");
        join(self.root.as_str(), rel.as_str())
    }

    /// The file that names the stream in use.
    pub fn current_stream_path(&self) -> (path: String)
        ensures
            path@ == joined(self.root@, "CURRENT_STREAM"@),
    {
        join(self.root.as_str(), "CURRENT_STREAM")
    }
}

} // verus!
