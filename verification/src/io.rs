//! What the storage on disk means, apart from reading and writing it.

use vstd::prelude::*;

use vstd::string::StringExecFns;

use crate::config::{bytes_config, Config};
use crate::error::Error;
use crate::format::{all_writable, bytes_stream, stream_bytes, writable};
use crate::layout::{default_storage, default_storage_path, framed, joined, StorageLayout};
use crate::stream::{rejection, Event, Stream};

verus! {

/// What a configuration file at `path` gives: nothing where there is no
/// file, its configuration where `file` holds one, and the path as the
/// failure where the bytes are no configuration.
fn read_config(file: Option<&[u8]>, path: &str) -> (r: Result<Option<Config>, Error>)
    ensures
        match file {
            None => r == Ok::<Option<Config>, Error>(None),
            Some(bytes) => match bytes_config(bytes@) {
                Some(config) => r == Ok::<Option<Config>, Error>(Some(config)),
                None => r matches Err(Error::DeserializeFailed(at)) && at@ == path@,
            },
        },
{
    match file {
        None => Ok(None),
        Some(bytes) => match Config::from_buffer(bytes) {
            Some(config) => Ok(Some(config)),
            None => Err(Error::DeserializeFailed(String::from_str(path))),
        },
    }
}

/// The user's settings.
pub struct Settings;

impl Settings {
    /// The root of the storage in use: what the settings file named by
    /// `SettingsLayout::current_storage` holds, given as `stored`, or the
    /// default storage below `home` where there is no such file.
    pub fn storage_path(stored: Option<String>, home: &str) -> (path: String)
        ensures
            path@ == match stored {
                Some(text) => text@,
                None => default_storage(home@),
            },
    {
        match stored {
            Some(text) => text,
            None => default_storage_path(home),
        }
    }

    /// The user's own configuration. `file` holds the bytes of the file
    /// named by `SettingsLayout::config_path`, or `None` where there is no
    /// such file; `path` is that path.
    pub fn config_file(file: Option<&[u8]>, path: &str) -> (r: Result<Option<Config>, Error>)
        ensures
            match file {
                None => r == Ok::<Option<Config>, Error>(None),
                Some(bytes) => match bytes_config(bytes@) {
                    Some(config) => r == Ok::<Option<Config>, Error>(Some(config)),
                    None => r matches Err(Error::DeserializeFailed(at)) && at@ == path@,
                },
            },
    {
        read_config(file, path)
    }
}

/// A storage: a directory laid out by `layout`.
pub struct Storage {
    layout: StorageLayout,
}

impl Storage {
    /// The layout that locates the files of the storage.
    pub closed spec fn spec_layout(self) -> StorageLayout {
        self.layout
    }

    /// The storage at `layout`.
    pub fn new(layout: StorageLayout) -> (storage: Storage)
        ensures
            storage.spec_layout() == layout,
    {
        Storage { layout }
    }

    /// The layout that locates the files of the storage.
    pub fn layout(&self) -> (layout: &StorageLayout)
        ensures
            *layout == self.spec_layout(),
    {
        &self.layout
    }

    /// The configuration of the stream `stream`. `file` holds the bytes of
    /// the file named by `StorageLayout::config_path`, or `None` where there
    /// is no such file.
    pub fn config_file(&self, stream: &str, file: Option<&[u8]>) -> (r: Result<
        Option<Config>,
        Error,
    >)
        ensures
            match file {
                None => r == Ok::<Option<Config>, Error>(None),
                Some(bytes) => match bytes_config(bytes@) {
                    Some(config) => r == Ok::<Option<Config>, Error>(Some(config)),
                    None => r matches Err(Error::DeserializeFailed(at)) && at@ == joined(
                        self.spec_layout().root@,
                        framed("streams/"@, stream@, "/config.json"@),
                    ),
                },
            },
    {
        let path = self.layout.config_path(stream);
        read_config(file, path.as_str())
    }

    /// The bytes of a stream file after an attempt to append `event` to
    /// the log that `buf` holds. An event that the log refuses is reported
    /// with the reason, and nothing is to be written then. An event that
    /// the log accepts is written unless one of its own instants has no
    /// textual form.
    pub fn stream_append(buf: &[u8], event: Event) -> (r: Result<Vec<u8>, Error>)
        ensures
            match bytes_stream(buf@) {
                None => r matches Err(error) && error is DeserializeFailed,
                Some(log) => match rejection(log, event@) {
                    Some(error) => r == Err::<Vec<u8>, Error>(error),
                    None => if writable(event@) {
                        r matches Ok(buffer) && stream_bytes(log.push(event@)) == Some(buffer@)
                            && bytes_stream(buffer@) == Some(log.push(event@))
                    } else {
                        r matches Err(error) && error is SerializeFailed
                    },
                },
            },
    {
        let mut stream = match Stream::from_buffer(buf) {
            Ok(stream) => stream,
            Err(error) => {
                return Err(error);
            },
        };
        let ghost log = stream@;
        match stream.push(event) {
            Ok(()) => {
                assert(all_writable(stream@) <==> writable(event@)) by {
                    if writable(event@) {
                        assert forall|i: int| 0 <= i < stream@.len() implies writable(
                            #[trigger] stream@[i],
                        ) by {
                            if i < log.len() {
                                assert(writable(log[i]));
                            }
                        }
                    } else {
                        assert(!writable(stream@[log.len() as int]));
                    }
                }
                stream.to_buffer()
            },
            Err(error) => Err(error),
        }
    }

    /// The stream that a command works on: the one it names, else the
    /// current stream of the storage, given as `current`.
    pub fn coalease_stream_name(stream_name: &Option<String>, current: Option<String>) -> (r:
        Result<String, Error>)
        ensures
            match (*stream_name, current) {
                (Some(name), _) => r matches Ok(chosen) && chosen@ == name@,
                (None, Some(name)) => r matches Ok(chosen) && chosen@ == name@,
                (None, None) => r matches Err(Error::NoStreamSet),
            },
    {
        match stream_name {
            Some(name) => Ok(name.clone()),
            None => match current {
                Some(name) => Ok(name),
                None => Err(Error::NoStreamSet),
            },
        }
    }
}

} // verus!
