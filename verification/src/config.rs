//! Settings of a stream, and how the places that may hold them are merged.

use vstd::prelude::*;

use crate::json::{
    as_text, is_null, is_object, json_of, lookup, member, parse, parsed, same_text, Json,
};

verus! {

/// The order in which streams are listed.
#[derive(Clone, Copy, Debug, PartialEq, Eq, Structural)]
pub enum StreamOrder {
    LastUsed,
    Lexographic,
}

/// The settings that a configuration file may give. A setting that the file
/// leaves out is `None`.
#[derive(Clone, Copy, Debug, PartialEq, Eq, Structural)]
pub struct Config {
    pub stream_order: Option<StreamOrder>,
}

impl Default for Config {
    fn default() -> (config: Config)
        ensures
            config.stream_order == Some(StreamOrder::LastUsed),
    {
        Config { stream_order: Some(StreamOrder::LastUsed) }
    }
}

/// The order that a document names: `"LastUsed"` or `"Lexographic"`.
pub open spec fn doc_order(doc: Json) -> Option<StreamOrder> {
    match doc {
        Json::Text(name) => if name == "LastUsed"@ {
            Some(StreamOrder::LastUsed)
        } else if name == "Lexographic"@ {
            Some(StreamOrder::Lexographic)
        } else {
            None
        },
        _ => None,
    }
}

/// The configuration that a document stands for: an object whose member
/// `stream_order` names an order, is `null` or is left out. Other members
/// are passed over.
pub open spec fn doc_config(doc: Json) -> Option<Config> {
    match doc {
        Json::Object(members) => match lookup(members, "stream_order"@) {
            None => Some(Config { stream_order: None }),
            Some(Json::Null) => Some(Config { stream_order: None }),
            Some(named) => match doc_order(named) {
                Some(order) => Some(Config { stream_order: Some(order) }),
                None => None,
            },
        },
        _ => None,
    }
}

/// The configuration that the bytes of a file stand for, or `None` where
/// they are no JSON or the document has not the layout of a configuration.
pub open spec fn bytes_config(bytes: Seq<u8>) -> Option<Config> {
    match parsed(bytes) {
        Some(doc) => doc_config(doc),
        None => None,
    }
}

/// What a file that may hold no configuration at all stands for: `null`
/// for none, else a configuration.
pub open spec fn bytes_optional_config(bytes: Seq<u8>) -> Option<Option<Config>> {
    match parsed(bytes) {
        Some(Json::Null) => Some(None),
        Some(doc) => match doc_config(doc) {
            Some(config) => Some(Some(config)),
            None => None,
        },
        None => None,
    }
}

impl Config {
    /// The configuration that a JSON document stands for.
    pub fn from_json(value: &serde_json::Value) -> (config: Option<Config>)
        ensures
            config == doc_config(json_of(*value)),
    {
        match member(value, "stream_order") {
            Some(named) => {
                if is_null(named) {
                    return Some(Config { stream_order: None });
                }
                match as_text(named) {
                    Some(name) => {
                        if same_text(name, "LastUsed") {
                            Some(Config { stream_order: Some(StreamOrder::LastUsed) })
                        } else if same_text(name, "Lexographic") {
                            Some(Config { stream_order: Some(StreamOrder::Lexographic) })
                        } else {
                            None
                        }
                    },
                    None => None,
                }
            },
            None => {
                if is_object(value) {
                    Some(Config { stream_order: None })
                } else {
                    None
                }
            },
        }
    }

    /// The configuration that the bytes of a file stand for.
    pub fn from_buffer(buf: &[u8]) -> (config: Option<Config>)
        ensures
            config == bytes_config(buf@),
    {
        match parse(buf) {
            Ok(doc) => Config::from_json(&doc),
            Err(_) => None,
        }
    }

    /// What the bytes of a file that may hold `null` stand for.
    pub fn optional_from_buffer(buf: &[u8]) -> (config: Option<Option<Config>>)
        ensures
            config == bytes_optional_config(buf@),
    {
        match parse(buf) {
            Ok(doc) => {
                if is_null(&doc) {
                    Some(None)
                } else {
                    match Config::from_json(&doc) {
                        Some(config) => Some(Some(config)),
                        None => None,
                    }
                }
            },
            Err(_) => None,
        }
    }

    /// `self` overlaid with `rhs`: each setting that `rhs` gives wins, the
    /// others stay as `self` has them.
    pub open spec fn overlaid(self, rhs: Option<Config>) -> Config {
        match rhs {
            Some(Config { stream_order: Some(order) }) => Config { stream_order: Some(order) },
            _ => self,
        }
    }

    /// The configuration in force: each setting is taken from the first of
    /// `explicit`, `local` and `global` that gives it, and from the defaults
    /// where none does.
    pub open spec fn merged(
        explicit: Option<Config>,
        local: Option<Config>,
        global: Option<Config>,
    ) -> Config {
        (Config { stream_order: Some(StreamOrder::LastUsed) }).overlaid(global).overlaid(
            local,
        ).overlaid(explicit)
    }

    /// Merges the configurations of the three places that may hold one.
    pub fn coalesce(explicit: Option<Config>, local: Option<Config>, global: Option<Config>) -> (config: Config)
        ensures
            config == Config::merged(explicit, local, global),
            config.stream_order is Some,
    {
        Config::default().rcoalesce(global).rcoalesce(local).rcoalesce(explicit)
    }

    /// Overlays `self` with `rhs`.
    pub fn rcoalesce(self, rhs: Option<Config>) -> (config: Config)
        ensures
            config == self.overlaid(rhs),
    {
        match rhs {
            Some(Config { stream_order: Some(order) }) => Config { stream_order: Some(order) },
            _ => self,
        }
    }
}

/// The explicit configuration has the last word, then the local one, then
/// the global one; the default order stands where none of them names one.
pub proof fn coalesce_prefers_explicit(
    explicit: Option<Config>,
    local: Option<Config>,
    global: Option<Config>,
)
    ensures
        Config::merged(explicit, local, global).stream_order == if explicit matches Some(c)
            && c.stream_order is Some {
            explicit->0.stream_order
        } else if local matches Some(c) && c.stream_order is Some {
            local->0.stream_order
        } else if global matches Some(c) && c.stream_order is Some {
            global->0.stream_order
        } else {
            Some(StreamOrder::LastUsed)
        },
{
}

} // verus!
