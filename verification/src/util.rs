//! Checks on what the user types.

use vstd::prelude::*;
use vstd::string::StringExecFns;

use crate::config::{bytes_optional_config, Config};
use crate::error::Error;
use crate::io::{Settings, Storage};
use crate::layout::{default_storage, StorageLayout};

verus! {

/// `c` may stand in the name of a stream: an ASCII letter or digit, `-` or `_`.
pub open spec fn is_name_char(c: char) -> bool {
    ||| 'a' <= c <= 'z'
    ||| 'A' <= c <= 'Z'
    ||| '0' <= c <= '9'
    ||| c == '-'
    ||| c == '_'
}

/// `s` can name a stream: every character of it may stand in such a name.
pub open spec fn is_stream_name(s: Seq<char>) -> bool {
    forall|i: int| 0 <= i < s.len() ==> is_name_char(#[trigger] s[i])
}

/// Whether `c` may stand in the name of a stream.
fn name_char(c: char) -> (b: bool)
    ensures
        b == is_name_char(c),
{
    ('a' <= c && c <= 'z') || ('A' <= c && c <= 'Z') || ('0' <= c && c <= '9') || c == '-' || c
        == '_'
}

/// Accepts the name of a stream, and says what is wrong with any other text.
pub fn validate_stream(s: &str) -> (r: Result<String, String>)
    ensures
        is_stream_name(s@) ==> (r matches Ok(name) && name@ == s@),
        !is_stream_name(s@) ==> (r matches Err(message) && message@
            == "Stream names can only contain letters, numbers, '-' or '_'"@),
{
    let n = s.unicode_len();
    let mut i: usize = 0;
    while i < n
        invariant
            n == s@.len(),
            i <= n,
            forall|j: int| 0 <= j < i ==> is_name_char(#[trigger] s@[j]),
        decreases n - i,
    {
        if !name_char(s.get_char(i)) {
            return Err(
                String::from_str("Stream names can only contain letters, numbers, '-' or '_'"),
            );
        }
        i += 1;
    }
    Ok(String::from_str(s))
}

/// The message for a path at which nothing exists.
pub open spec fn missing_message(s: Seq<char>) -> Seq<char> {
    "'"@ + s + "' does not exist"@
}

/// The message for a path at which something other than a file exists.
pub open spec fn not_a_file_message(s: Seq<char>) -> Seq<char> {
    "'"@ + s + "' is not a file"@
}

/// Accepts the path of an existing file. `exists` and `is_file` say what
/// the file system holds at `s`.
pub fn parse_existing_file(s: &str, exists: bool, is_file: bool) -> (r: Result<String, String>)
    ensures
        !exists ==> (r matches Err(message) && message@ == missing_message(s@)),
        exists && !is_file ==> (r matches Err(message) && message@ == not_a_file_message(s@)),
        exists && is_file ==> (r matches Ok(path) && path@ == s@),
{
    if !exists {
        let mut message = String::from_str("'");
        message.append(s);
        message.append("' does not exist");
        return Err(message);
    }
    if !is_file {
        let mut message = String::from_str("'");
        message.append(s);
        message.append("' is not a file");
        return Err(message);
    }
    Ok(String::from_str(s))
}

/// The storage that a command works on: the one at `preference`, else the
/// one that the settings name, given as `stored`, else the default storage
/// below `home`.
pub fn storage(preference: Option<String>, stored: Option<String>, home: &str) -> (storage: Storage)
    ensures
        storage.spec_layout().root@ == match (preference, stored) {
            (Some(path), _) => path@,
            (None, Some(path)) => path@,
            (None, None) => default_storage(home@),
        },
{
    let storage_path = Settings::storage_path(stored, home);
    let layout = StorageLayout::coalesce(preference, Some(storage_path), home);
    Storage::new(layout)
}

/// The configuration that a command works with. `preference` holds the
/// bytes of the configuration file that the command names, if it names one,
/// and `path` is where that file lies; `settings` and `stream` are what the
/// user's own file and the file of the stream gave.
pub fn config(
    preference: Option<&[u8]>,
    path: &str,
    settings: Option<Config>,
    stream: Option<Config>,
) -> (r: Result<Config, Error>)
    ensures
        match preference {
            None => r == Ok::<Config, Error>(Config::merged(None, settings, stream)),
            Some(bytes) => match bytes_optional_config(bytes@) {
                Some(explicit) => r == Ok::<Config, Error>(
                    Config::merged(explicit, settings, stream),
                ),
                None => r matches Err(Error::DeserializeFailed(at)) && at@ == path@,
            },
        },
{
    let explicit = match preference {
        Some(bytes) => match Config::optional_from_buffer(bytes) {
            Some(explicit) => explicit,
            None => {
                return Err(Error::DeserializeFailed(String::from_str(path)));
            },
        },
        None => None,
    };
    Ok(Config::coalesce(explicit, settings, stream))
}

} // verus!
