//! The persisted form of a log: a JSON array with one object for each event.
//!
//! Every event has the members `op` (`create`, `edit` or `delete`),
//! `event_id` and `created_at`. A creation or an edit continues with the
//! members of its entity: `type` (`login`, `logout`, `break` or `activity`),
//! `entity_id`, `timestamp`, and for a break or an activity `duration` in
//! whole seconds, `value` (activity only) and `autoinsert`. A deletion
//! continues with `entity_id`. Identifiers are written as hyphenated
//! hexadecimal text, instants in RFC 3339.

use vstd::prelude::*;
use vstd::string::StringExecFns;

use crate::error::Error;
use crate::id::{uuid_text, uuid_value, Id};
use crate::json::{
    array_value, as_flag, as_integer, as_items, as_text, contents, distinct_keys, flag_value,
    integer_value, is_record, is_table, json_of, lemma_lookup, lookup, member, members_of,
    object_value, parse, parsed, render, rendered, same_text, text_value, Json,
};
use crate::stream::{event_views, Entity, EntityView, Event, EventView, Stream};
use crate::time::Timestamp;

verus! {

/// The document that stands for an identifier.
pub open spec fn id_doc(id: Id) -> Json {
    Json::Text(uuid_text(id.0))
}

/// The document that stands for an instant that can be written.
pub open spec fn time_doc(t: Timestamp) -> Json {
    Json::Text(t.text().unwrap())
}

/// The members that stand for an entity, in their order.
pub open spec fn entity_members(e: EntityView) -> Seq<(Seq<char>, Json)> {
    match e {
        EntityView::Login { id, timestamp } => seq![
            ("type"@, Json::Text("login"@)),
            ("entity_id"@, id_doc(id)),
            ("timestamp"@, time_doc(timestamp)),
        ],
        EntityView::Logout { id, timestamp } => seq![
            ("type"@, Json::Text("logout"@)),
            ("entity_id"@, id_doc(id)),
            ("timestamp"@, time_doc(timestamp)),
        ],
        EntityView::Break { id, timestamp, duration, autoinsert } => seq![
            ("type"@, Json::Text("break"@)),
            ("entity_id"@, id_doc(id)),
            ("timestamp"@, time_doc(timestamp)),
            ("duration"@, Json::Integer(duration as int)),
            ("autoinsert"@, Json::Bool(autoinsert)),
        ],
        EntityView::Activity { id, timestamp, duration, value, autoinsert } => seq![
            ("type"@, Json::Text("activity"@)),
            ("entity_id"@, id_doc(id)),
            ("timestamp"@, time_doc(timestamp)),
            ("duration"@, Json::Integer(duration as int)),
            ("value"@, Json::Text(value)),
            ("autoinsert"@, Json::Bool(autoinsert)),
        ],
    }
}

/// The members that every event starts with.
pub open spec fn head_members(op: Seq<char>, id: Id, created_at: Timestamp) -> Seq<(Seq<char>, Json)> {
    seq![("op"@, Json::Text(op)), ("event_id"@, id_doc(id)), ("created_at"@, time_doc(created_at))]
}

/// The members that stand for an event, in their order.
pub open spec fn event_members(event: EventView) -> Seq<(Seq<char>, Json)> {
    match event {
        EventView::Create { id, created_at, entity } => head_members("create"@, id, created_at)
            + entity_members(entity),
        EventView::Edit { id, created_at, entity } => head_members("edit"@, id, created_at)
            + entity_members(entity),
        EventView::Delete { id, created_at, entity_id } => head_members("delete"@, id, created_at)
            + seq![("entity_id"@, id_doc(entity_id))],
    }
}

/// The document that stands for an event.
pub open spec fn event_doc(event: EventView) -> Json {
    Json::Object(event_members(event))
}

/// The document that stands for a log.
pub open spec fn stream_doc(log: Seq<EventView>) -> Json {
    Json::Array(log.map_values(|event: EventView| event_doc(event)))
}

/// Every instant of the event can be written.
pub open spec fn writable(event: EventView) -> bool {
    match event {
        EventView::Create { created_at, entity, .. } => created_at.text() is Some
            && entity.timestamp().text() is Some,
        EventView::Edit { created_at, entity, .. } => created_at.text() is Some
            && entity.timestamp().text() is Some,
        EventView::Delete { created_at, .. } => created_at.text() is Some,
    }
}

/// Every instant of the log can be written.
pub open spec fn all_writable(log: Seq<EventView>) -> bool {
    forall|i: int| 0 <= i < log.len() ==> writable(#[trigger] log[i])
}

/// The bytes that stand for a log, or `None` where it cannot be written:
/// where an instant of it lies outside the years that have a textual form.
pub open spec fn stream_bytes(log: Seq<EventView>) -> Option<Seq<u8>> {
    if all_writable(log) {
        Some(rendered(stream_doc(log)))
    } else {
        None
    }
}

/// The identifier that a document stands for.
pub open spec fn doc_id(doc: Option<Json>) -> Option<Id> {
    match doc {
        Some(Json::Text(text)) => match uuid_value(text) {
            Some(bits) => Some(Id(bits)),
            None => None,
        },
        _ => None,
    }
}

/// The instant that a document stands for.
pub open spec fn doc_time(doc: Option<Json>) -> Option<Timestamp> {
    match doc {
        Some(Json::Text(text)) => Timestamp::of_text(text),
        _ => None,
    }
}

/// The text that a document stands for.
pub open spec fn doc_text(doc: Option<Json>) -> Option<Seq<char>> {
    match doc {
        Some(Json::Text(text)) => Some(text),
        _ => None,
    }
}

/// The number of seconds that a document stands for.
pub open spec fn doc_seconds(doc: Option<Json>) -> Option<i64> {
    match doc {
        Some(Json::Integer(n)) => if i64::MIN <= n <= i64::MAX {
            Some(n as i64)
        } else {
            None
        },
        _ => None,
    }
}

/// The truth value that a document stands for.
pub open spec fn doc_flag(doc: Option<Json>) -> Option<bool> {
    match doc {
        Some(Json::Bool(flag)) => Some(flag),
        _ => None,
    }
}

/// The entity that the members of an object stand for. Members that the
/// format does not name are passed over.
pub open spec fn members_entity(members: Seq<(Seq<char>, Json)>) -> Option<EntityView> {
    match (
        doc_text(lookup(members, "type"@)),
        doc_id(lookup(members, "entity_id"@)),
        doc_time(lookup(members, "timestamp"@)),
    ) {
        (Some(kind), Some(id), Some(timestamp)) => {
            if kind == "login"@ {
                Some(EntityView::Login { id, timestamp })
            } else if kind == "logout"@ {
                Some(EntityView::Logout { id, timestamp })
            } else if kind == "break"@ {
                match (
                    doc_seconds(lookup(members, "duration"@)),
                    doc_flag(lookup(members, "autoinsert"@)),
                ) {
                    (Some(duration), Some(autoinsert)) => Some(
                        EntityView::Break { id, timestamp, duration, autoinsert },
                    ),
                    _ => None,
                }
            } else if kind == "activity"@ {
                match (
                    doc_seconds(lookup(members, "duration"@)),
                    doc_text(lookup(members, "value"@)),
                    doc_flag(lookup(members, "autoinsert"@)),
                ) {
                    (Some(duration), Some(value), Some(autoinsert)) => Some(
                        EntityView::Activity { id, timestamp, duration, value, autoinsert },
                    ),
                    _ => None,
                }
            } else {
                None
            }
        },
        _ => None,
    }
}

/// The event that a document stands for, or `None` where it has not the
/// layout of one.
pub open spec fn doc_event(doc: Json) -> Option<EventView> {
    match doc {
        Json::Object(members) => match (
            doc_text(lookup(members, "op"@)),
            doc_id(lookup(members, "event_id"@)),
            doc_time(lookup(members, "created_at"@)),
        ) {
            (Some(op), Some(id), Some(created_at)) => {
                if op == "create"@ {
                    match members_entity(members) {
                        Some(entity) => Some(EventView::Create { id, created_at, entity }),
                        None => None,
                    }
                } else if op == "edit"@ {
                    match members_entity(members) {
                        Some(entity) => Some(EventView::Edit { id, created_at, entity }),
                        None => None,
                    }
                } else if op == "delete"@ {
                    match doc_id(lookup(members, "entity_id"@)) {
                        Some(entity_id) => Some(EventView::Delete { id, created_at, entity_id }),
                        None => None,
                    }
                } else {
                    None
                }
            },
            _ => None,
        },
        _ => None,
    }
}

/// The log that a document stands for: the document is an array, and each
/// of its items stands for an event.
pub open spec fn doc_stream(doc: Json) -> Option<Seq<EventView>> {
    match doc {
        Json::Array(items) => if forall|i: int|
            0 <= i < items.len() ==> doc_event(#[trigger] items[i]) is Some {
            Some(items.map_values(|item: Json| doc_event(item).unwrap()))
        } else {
            None
        },
        _ => None,
    }
}

/// The log that bytes stand for, or `None` where they are no JSON or the
/// document has not the layout of a log.
pub open spec fn bytes_stream(bytes: Seq<u8>) -> Option<Seq<EventView>> {
    match parsed(bytes) {
        Some(doc) => doc_stream(doc),
        None => None,
    }
}

/// The identifier is read back from its text.
pub open spec fn id_returns(id: Id) -> bool {
    uuid_value(uuid_text(id.0)) == Some(id.0)
}

/// The instant can be written and is read back from its text.
pub open spec fn time_returns(t: Timestamp) -> bool {
    t.text() matches Some(text) && Timestamp::of_text(text) == Some(t)
}

/// Every identifier and instant of the entity is read back from its text.
pub open spec fn entity_returns(e: EntityView) -> bool {
    id_returns(e.id()) && time_returns(e.timestamp())
}

/// Every identifier and instant of the event is read back from its text.
pub open spec fn event_returns(event: EventView) -> bool {
    match event {
        EventView::Create { id, created_at, entity } => id_returns(id) && time_returns(created_at)
            && entity_returns(entity),
        EventView::Edit { id, created_at, entity } => id_returns(id) && time_returns(created_at)
            && entity_returns(entity),
        EventView::Delete { id, created_at, entity_id } => id_returns(id) && time_returns(
            created_at,
        ) && id_returns(entity_id),
    }
}

/// The names of the format are distinct from one another.
proof fn lemma_names()
    ensures
        "op"@ != "event_id"@,
        "op"@ != "created_at"@,
        "op"@ != "type"@,
        "op"@ != "entity_id"@,
        "op"@ != "timestamp"@,
        "op"@ != "duration"@,
        "op"@ != "value"@,
        "op"@ != "autoinsert"@,
        "event_id"@ != "created_at"@,
        "event_id"@ != "type"@,
        "event_id"@ != "entity_id"@,
        "event_id"@ != "timestamp"@,
        "event_id"@ != "duration"@,
        "event_id"@ != "value"@,
        "event_id"@ != "autoinsert"@,
        "created_at"@ != "type"@,
        "created_at"@ != "entity_id"@,
        "created_at"@ != "timestamp"@,
        "created_at"@ != "duration"@,
        "created_at"@ != "value"@,
        "created_at"@ != "autoinsert"@,
        "type"@ != "entity_id"@,
        "type"@ != "timestamp"@,
        "type"@ != "duration"@,
        "type"@ != "value"@,
        "type"@ != "autoinsert"@,
        "entity_id"@ != "timestamp"@,
        "entity_id"@ != "duration"@,
        "entity_id"@ != "value"@,
        "entity_id"@ != "autoinsert"@,
        "timestamp"@ != "duration"@,
        "timestamp"@ != "value"@,
        "timestamp"@ != "autoinsert"@,
        "duration"@ != "value"@,
        "duration"@ != "autoinsert"@,
        "value"@ != "autoinsert"@,
        "create"@ != "edit"@,
        "create"@ != "delete"@,
        "edit"@ != "delete"@,
        "login"@ != "logout"@,
        "login"@ != "break"@,
        "login"@ != "activity"@,
        "logout"@ != "break"@,
        "logout"@ != "activity"@,
        "break"@ != "activity"@,
{
    reveal_strlit("op");
    reveal_strlit("event_id");
    reveal_strlit("created_at");
    reveal_strlit("type");
    reveal_strlit("entity_id");
    reveal_strlit("timestamp");
    reveal_strlit("duration");
    reveal_strlit("value");
    reveal_strlit("autoinsert");
    reveal_strlit("create");
    reveal_strlit("edit");
    reveal_strlit("delete");
    reveal_strlit("login");
    reveal_strlit("logout");
    reveal_strlit("break");
    reveal_strlit("activity");
    assert("op"@.len() != "event_id"@.len());
    assert("op"@.len() != "created_at"@.len());
    assert("op"@.len() != "type"@.len());
    assert("op"@.len() != "entity_id"@.len());
    assert("op"@.len() != "timestamp"@.len());
    assert("op"@.len() != "duration"@.len());
    assert("op"@.len() != "value"@.len());
    assert("op"@.len() != "autoinsert"@.len());
    assert("event_id"@.len() != "created_at"@.len());
    assert("event_id"@.len() != "type"@.len());
    assert("event_id"@.len() != "entity_id"@.len());
    assert("event_id"@.len() != "timestamp"@.len());
    assert("event_id"@[0] != "duration"@[0]);
    assert("event_id"@.len() != "value"@.len());
    assert("event_id"@.len() != "autoinsert"@.len());
    assert("created_at"@.len() != "type"@.len());
    assert("created_at"@.len() != "entity_id"@.len());
    assert("created_at"@.len() != "timestamp"@.len());
    assert("created_at"@.len() != "duration"@.len());
    assert("created_at"@.len() != "value"@.len());
    assert("created_at"@[0] != "autoinsert"@[0]);
    assert("type"@.len() != "entity_id"@.len());
    assert("type"@.len() != "timestamp"@.len());
    assert("type"@.len() != "duration"@.len());
    assert("type"@.len() != "value"@.len());
    assert("type"@.len() != "autoinsert"@.len());
    assert("entity_id"@[0] != "timestamp"@[0]);
    assert("entity_id"@.len() != "duration"@.len());
    assert("entity_id"@.len() != "value"@.len());
    assert("entity_id"@.len() != "autoinsert"@.len());
    assert("timestamp"@.len() != "duration"@.len());
    assert("timestamp"@.len() != "value"@.len());
    assert("timestamp"@.len() != "autoinsert"@.len());
    assert("duration"@.len() != "value"@.len());
    assert("duration"@.len() != "autoinsert"@.len());
    assert("value"@.len() != "autoinsert"@.len());
    assert("create"@.len() != "edit"@.len());
    assert("create"@[0] != "delete"@[0]);
    assert("edit"@.len() != "delete"@.len());
    assert("login"@.len() != "logout"@.len());
    assert("login"@[0] != "break"@[0]);
    assert("login"@.len() != "activity"@.len());
    assert("logout"@.len() != "break"@.len());
    assert("logout"@.len() != "activity"@.len());
    assert("break"@.len() != "activity"@.len());
}

/// The document of an entity is read back as the entity, also where other
/// members stand before its own.
proof fn lemma_entity_round_trip(head: Seq<(Seq<char>, Json)>, e: EntityView)
    requires
        entity_returns(e),
        head.len() == 3,
        head[0].0 == "op"@,
        head[1].0 == "event_id"@,
        head[2].0 == "created_at"@,
    ensures
        members_entity(head + entity_members(e)) == Some(e),
        distinct_keys(head + entity_members(e)),
        forall|i: int|
            3 <= i < (head + entity_members(e)).len() ==> crate::json::is_scalar(
                (#[trigger] (head + entity_members(e))[i]).1,
            ),
{
    lemma_names();
    let own = entity_members(e);
    let all = head + own;
    assert(all.len() == 3 + own.len());
    assert forall|i: int| 0 <= i < all.len() implies #[trigger] all[i] == if i < 3 {
        head[i]
    } else {
        own[i - 3]
    } by {}
    assert(all[3].0 == "type"@);
    assert(all[4].0 == "entity_id"@);
    assert(all[5].0 == "timestamp"@);
    lemma_lookup(all, 3);
    lemma_lookup(all, 4);
    lemma_lookup(all, 5);
    match e {
        EntityView::Login { .. } => {},
        EntityView::Logout { .. } => {},
        EntityView::Break { .. } => {
            assert(all[6].0 == "duration"@);
            assert(all[7].0 == "autoinsert"@);
            lemma_lookup(all, 6);
            lemma_lookup(all, 7);
        },
        EntityView::Activity { .. } => {
            assert(all[6].0 == "duration"@);
            assert(all[7].0 == "value"@);
            assert(all[8].0 == "autoinsert"@);
            lemma_lookup(all, 6);
            lemma_lookup(all, 7);
            lemma_lookup(all, 8);
        },
    }
}

/// An event whose identifiers and instants are read back from their texts
/// is read back from its document.
pub proof fn event_round_trip(event: EventView)
    requires
        event_returns(event),
    ensures
        doc_event(event_doc(event)) == Some(event),
        is_record(event_doc(event)),
        writable(event),
{
    lemma_names();
    let all = event_members(event);
    match event {
        EventView::Create { id, created_at, entity } => {
            let head = head_members("create"@, id, created_at);
            lemma_entity_round_trip(head, entity);
            assert(all[0] == head[0] && all[1] == head[1] && all[2] == head[2]);
            lemma_lookup(all, 0);
            lemma_lookup(all, 1);
            lemma_lookup(all, 2);
        },
        EventView::Edit { id, created_at, entity } => {
            let head = head_members("edit"@, id, created_at);
            lemma_entity_round_trip(head, entity);
            assert(all[0] == head[0] && all[1] == head[1] && all[2] == head[2]);
            lemma_lookup(all, 0);
            lemma_lookup(all, 1);
            lemma_lookup(all, 2);
        },
        EventView::Delete { id, created_at, entity_id } => {
            let head = head_members("delete"@, id, created_at);
            assert(all.len() == 4);
            assert(all[0] == head[0] && all[1] == head[1] && all[2] == head[2]);
            assert(all[3].0 == "entity_id"@);
            lemma_lookup(all, 0);
            lemma_lookup(all, 1);
            lemma_lookup(all, 2);
            lemma_lookup(all, 3);
        },
    }
}

/// A log whose identifiers and instants are read back from their texts is
/// read back from its document, event by event and in the same order.
pub proof fn stream_round_trip(log: Seq<EventView>)
    requires
        forall|i: int| 0 <= i < log.len() ==> event_returns(#[trigger] log[i]),
    ensures
        doc_stream(stream_doc(log)) == Some(log),
        is_table(stream_doc(log)),
        forall|i: int| 0 <= i < log.len() ==> writable(#[trigger] log[i]),
{
    let items = log.map_values(|event: EventView| event_doc(event));
    assert forall|i: int| 0 <= i < items.len() implies doc_event(#[trigger] items[i]) == Some(
        log[i],
    ) && is_record(items[i]) && writable(log[i]) by {
        event_round_trip(log[i]);
    }
    assert(items.map_values(|item: Json| doc_event(item).unwrap()) =~= log);
}

/// The content of a document that may be missing.
pub open spec fn found(value: Option<&serde_json::Value>) -> Option<Json> {
    match value {
        Some(inner) => Some(json_of(*inner)),
        None => None,
    }
}

/// A key with its document, as a member of an object.
fn pair(key: &str, value: serde_json::Value) -> (p: (String, serde_json::Value))
    ensures
        p.0@ == key@,
        p.1 == value,
{
    (String::from_str(key), value)
}

/// The document that stands for an identifier.
fn id_value(id: Id) -> (value: serde_json::Value)
    ensures
        json_of(value) == id_doc(id),
        id_returns(id),
{
    text_value(id.to_string())
}

/// The document that stands for an instant, unless the instant cannot be
/// written.
fn time_value(t: Timestamp) -> (r: Option<serde_json::Value>)
    ensures
        r is Some <==> t.text() is Some,
        r matches Some(value) ==> json_of(value) == time_doc(t) && time_returns(t),
{
    match t.to_rfc3339() {
        Some(text) => Some(text_value(text)),
        None => None,
    }
}

/// Appends the members of `entity` to `pairs`, unless its instant cannot
/// be written.
fn push_entity(pairs: &mut Vec<(String, serde_json::Value)>, entity: &Entity) -> (done: bool)
    ensures
        done <==> entity@.timestamp().text() is Some,
        done ==> members_of(final(pairs)@) == members_of(old(pairs)@) + entity_members(entity@),
        done ==> entity_returns(entity@),
{
    let time = match time_value(entity.timestamp()) {
        Some(time) => time,
        None => {
            return false;
        },
    };
    let id = id_value(entity.id());
    match entity {
        Entity::Login { .. } => {
            pairs.push(pair("type", text_value(String::from_str("login"))));
            pairs.push(pair("entity_id", id));
            pairs.push(pair("timestamp", time));
        },
        Entity::Logout { .. } => {
            pairs.push(pair("type", text_value(String::from_str("logout"))));
            pairs.push(pair("entity_id", id));
            pairs.push(pair("timestamp", time));
        },
        Entity::Break { duration, autoinsert, .. } => {
            pairs.push(pair("type", text_value(String::from_str("break"))));
            pairs.push(pair("entity_id", id));
            pairs.push(pair("timestamp", time));
            pairs.push(pair("duration", integer_value(*duration)));
            pairs.push(pair("autoinsert", flag_value(*autoinsert)));
        },
        Entity::Activity { duration, value, autoinsert, .. } => {
            pairs.push(pair("type", text_value(String::from_str("activity"))));
            pairs.push(pair("entity_id", id));
            pairs.push(pair("timestamp", time));
            pairs.push(pair("duration", integer_value(*duration)));
            pairs.push(pair("value", text_value(value.clone())));
            pairs.push(pair("autoinsert", flag_value(*autoinsert)));
        },
    }
    assert(members_of(pairs@) =~= members_of(old(pairs)@) + entity_members(entity@));
    true
}

/// The first three members of every event, unless the instant cannot be
/// written.
fn head_pairs(op: &str, id: Id, created_at: Timestamp) -> (r: Option<
    Vec<(String, serde_json::Value)>,
>)
    ensures
        r is Some <==> created_at.text() is Some,
        r matches Some(pairs) ==> members_of(pairs@) == head_members(op@, id, created_at)
            && id_returns(id) && time_returns(created_at),
{
    let time = match time_value(created_at) {
        Some(time) => time,
        None => {
            return None;
        },
    };
    let mut pairs: Vec<(String, serde_json::Value)> = Vec::new();
    pairs.push(pair("op", text_value(String::from_str(op))));
    pairs.push(pair("event_id", id_value(id)));
    pairs.push(pair("created_at", time));
    assert(members_of(pairs@) =~= head_members(op@, id, created_at));
    Some(pairs)
}

impl Event {
    /// The JSON object that stands for the event, or `None` where one of
    /// its instants has no textual form.
    pub fn to_json(&self) -> (r: Option<serde_json::Value>)
        ensures
            r is Some <==> writable(self@),
            r matches Some(value) ==> json_of(value) == event_doc(self@),
            r matches Some(value) ==> doc_event(json_of(value)) == Some(self@),
            r is Some ==> event_returns(self@),
    {
        let pairs = match self {
            Event::Create { id, created_at, entity } => {
                let mut pairs = match head_pairs("create", *id, *created_at) {
                    Some(pairs) => pairs,
                    None => {
                        return None;
                    },
                };
                if !push_entity(&mut pairs, entity) {
                    return None;
                }
                pairs
            },
            Event::Edit { id, created_at, entity } => {
                let mut pairs = match head_pairs("edit", *id, *created_at) {
                    Some(pairs) => pairs,
                    None => {
                        return None;
                    },
                };
                if !push_entity(&mut pairs, entity) {
                    return None;
                }
                pairs
            },
            Event::Delete { id, created_at, entity_id } => {
                let mut pairs = match head_pairs("delete", *id, *created_at) {
                    Some(pairs) => pairs,
                    None => {
                        return None;
                    },
                };
                let ghost head = members_of(pairs@);
                pairs.push(pair("entity_id", id_value(*entity_id)));
                assert(members_of(pairs@) =~= head + seq![("entity_id"@, id_doc(*entity_id))]);
                pairs
            },
        };
        proof {
            event_round_trip(self@);
        }
        Some(object_value(pairs))
    }

    /// The event that a JSON object stands for, or `None` where it has not
    /// the layout of one. An event that was read can be written again.
    pub fn from_json(value: &serde_json::Value) -> (r: Option<Event>)
        ensures
            match doc_event(json_of(*value)) {
                Some(event) => r matches Some(read) && read@ == event,
                None => r is None,
            },
            r matches Some(read) ==> writable(read@),
    {
        let op = match read_text(member(value, "op")) {
            Some(op) => op,
            None => {
                return None;
            },
        };
        let id = match read_id(member(value, "event_id")) {
            Some(id) => id,
            None => {
                return None;
            },
        };
        let created_at = match read_time(member(value, "created_at")) {
            Some(created_at) => created_at,
            None => {
                return None;
            },
        };
        if same_text(op, "create") {
            match read_entity(value) {
                Some(entity) => Some(Event::Create { id, created_at, entity }),
                None => None,
            }
        } else if same_text(op, "edit") {
            match read_entity(value) {
                Some(entity) => Some(Event::Edit { id, created_at, entity }),
                None => None,
            }
        } else if same_text(op, "delete") {
            match read_id(member(value, "entity_id")) {
                Some(entity_id) => Some(Event::Delete { id, created_at, entity_id }),
                None => None,
            }
        } else {
            None
        }
    }
}

/// The text of a document that may be missing.
fn read_text<'a>(value: Option<&'a serde_json::Value>) -> (r: Option<&'a str>)
    ensures
        match doc_text(found(value)) {
            Some(text) => r matches Some(read) && read@ == text,
            None => r is None,
        },
{
    match value {
        Some(inner) => as_text(inner),
        None => None,
    }
}

/// The identifier that a document that may be missing stands for.
fn read_id(value: Option<&serde_json::Value>) -> (r: Option<Id>)
    ensures
        r == doc_id(found(value)),
{
    match read_text(value) {
        Some(text) => match Id::from_str(text) {
            Ok(id) => Some(id),
            Err(_) => None,
        },
        None => None,
    }
}

/// The instant that a document that may be missing stands for.
fn read_time(value: Option<&serde_json::Value>) -> (r: Option<Timestamp>)
    ensures
        r == doc_time(found(value)),
        r matches Some(t) ==> t.text() is Some,
{
    match read_text(value) {
        Some(text) => match Timestamp::parse_rfc3339(text) {
            Ok(t) => Some(t),
            Err(_) => None,
        },
        None => None,
    }
}

/// The number of seconds that a document that may be missing stands for.
fn read_seconds(value: Option<&serde_json::Value>) -> (r: Option<i64>)
    ensures
        r == doc_seconds(found(value)),
{
    match value {
        Some(inner) => as_integer(inner),
        None => None,
    }
}

/// The truth value that a document that may be missing stands for.
fn read_flag(value: Option<&serde_json::Value>) -> (r: Option<bool>)
    ensures
        r == doc_flag(found(value)),
{
    match value {
        Some(inner) => as_flag(inner),
        None => None,
    }
}

/// The entity that the members of a JSON object stand for.
fn read_entity(value: &serde_json::Value) -> (r: Option<Entity>)
    requires
        json_of(*value) is Object,
    ensures
        match members_entity(json_of(*value)->Object_0) {
            Some(entity) => r matches Some(read) && read@ == entity,
            None => r is None,
        },
        r matches Some(read) ==> read@.timestamp().text() is Some,
{
    let kind = match read_text(member(value, "type")) {
        Some(kind) => kind,
        None => {
            return None;
        },
    };
    let id = match read_id(member(value, "entity_id")) {
        Some(id) => id,
        None => {
            return None;
        },
    };
    let timestamp = match read_time(member(value, "timestamp")) {
        Some(timestamp) => timestamp,
        None => {
            return None;
        },
    };
    if same_text(kind, "login") {
        Some(Entity::Login { id, timestamp })
    } else if same_text(kind, "logout") {
        Some(Entity::Logout { id, timestamp })
    } else if same_text(kind, "break") {
        let duration = read_seconds(member(value, "duration"));
        let autoinsert = read_flag(member(value, "autoinsert"));
        match (duration, autoinsert) {
            (Some(duration), Some(autoinsert)) => Some(
                Entity::Break { id, timestamp, duration, autoinsert },
            ),
            _ => None,
        }
    } else if same_text(kind, "activity") {
        let duration = read_seconds(member(value, "duration"));
        let text = read_text(member(value, "value"));
        let autoinsert = read_flag(member(value, "autoinsert"));
        match (duration, text, autoinsert) {
            (Some(duration), Some(text), Some(autoinsert)) => Some(
                Entity::Activity {
                    id,
                    timestamp,
                    duration,
                    value: String::from_str(text),
                    autoinsert,
                },
            ),
            _ => None,
        }
    } else {
        None
    }
}

impl Stream {
    /// The JSON array that stands for the log. It fails where an instant
    /// of the log has no textual form.
    pub fn to_json(&self) -> (r: Result<serde_json::Value, Error>)
        ensures
            r is Ok <==> all_writable(self@),
            r matches Ok(value) ==> json_of(value) == stream_doc(self@),
            r matches Ok(value) ==> doc_stream(json_of(value)) == Some(self@) && is_table(
                json_of(value),
            ),
            r matches Err(error) ==> error is SerializeFailed,
    {
        let mut items: Vec<serde_json::Value> = Vec::new();
        let mut i: usize = 0;
        while i < self.len()
            invariant
                i <= self@.len(),
                items@.len() == i,
                forall|j: int| 0 <= j < i ==> json_of(#[trigger] items@[j]) == event_doc(self@[j]),
                forall|j: int| 0 <= j < i ==> event_returns(#[trigger] self@[j]),
            decreases self@.len() - i,
        {
            let event = self.get(i).unwrap();
            match event.to_json() {
                Some(item) => {
                    items.push(item);
                },
                None => {
                    return Err(
                        Error::SerializeFailed(
                            String::from_str("an instant of the log has no textual form"),
                        ),
                    );
                },
            }
            i += 1;
        }
        proof {
            stream_round_trip(self@);
            assert(contents(items@) =~= self@.map_values(|event: EventView| event_doc(event)));
        }
        Ok(array_value(items))
    }

    /// Serializes the log to a JSON array of its events. The bytes are
    /// read back by `from_buffer` as the same log. It fails only where an
    /// instant of the log has no textual form.
    pub fn to_buffer(&self) -> (r: Result<Vec<u8>, Error>)
        ensures
            match stream_bytes(self@) {
                Some(bytes) => r matches Ok(buffer) && buffer@ == bytes && bytes_stream(buffer@)
                    == Some(self@),
                None => r matches Err(error) && error is SerializeFailed,
            },
    {
        let doc = match self.to_json() {
            Ok(doc) => doc,
            Err(error) => {
                return Err(error);
            },
        };
        match render(&doc) {
            Ok(buffer) => Ok(buffer),
            Err(message) => Err(Error::SerializeFailed(message)),
        }
    }

    /// The log that a JSON array stands for. It fails where the document
    /// is no array or one of its items has not the layout of an event. A
    /// log that was read can be written again.
    pub fn from_json(value: &serde_json::Value) -> (r: Result<Stream, Error>)
        ensures
            match doc_stream(json_of(*value)) {
                Some(log) => r matches Ok(stream) && stream@ == log,
                None => r matches Err(error) && error is DeserializeFailed,
            },
            r matches Ok(stream) ==> all_writable(stream@),
    {
        let items = match as_items(value) {
            Some(items) => items,
            None => {
                return Err(
                    Error::DeserializeFailed(String::from_str("the document is no array")),
                );
            },
        };
        let ghost docs = contents(items@);
        let mut events: Vec<Event> = Vec::new();
        let mut i: usize = 0;
        while i < items.len()
            invariant
                i <= items@.len(),
                docs == contents(items@),
                json_of(*value) == Json::Array(docs),
                events@.len() == i,
                forall|j: int| 0 <= j < i ==> doc_event(#[trigger] docs[j]) == Some(events@[j]@),
                forall|j: int| 0 <= j < i ==> writable(#[trigger] events@[j]@),
            decreases items@.len() - i,
        {
            assert(docs[i as int] == json_of(items@[i as int]));
            match Event::from_json(&items[i]) {
                Some(event) => {
                    events.push(event);
                },
                None => {
                    assert(doc_event(docs[i as int]) is None);
                    return Err(
                        Error::DeserializeFailed(
                            String::from_str("an item of the array has not the layout of an event"),
                        ),
                    );
                },
            }
            i += 1;
        }
        assert(event_views(events@) =~= docs.map_values(|item: Json| doc_event(item).unwrap()));
        Ok(Stream::from_events(events))
    }

    /// Parses a log from a JSON array of events. It fails where the
    /// buffer is no JSON, or the document has not the layout of a log. A
    /// log that was read can be written again.
    pub fn from_buffer(buf: &[u8]) -> (r: Result<Stream, Error>)
        ensures
            match bytes_stream(buf@) {
                Some(log) => r matches Ok(stream) && stream@ == log,
                None => r matches Err(error) && error is DeserializeFailed,
            },
            r matches Ok(stream) ==> all_writable(stream@),
    {
        match parse(buf) {
            Ok(doc) => Stream::from_json(&doc),
            Err(message) => Err(Error::DeserializeFailed(message)),
        }
    }
}

} // verus!
