//! Entities, the events that act on them, and the append-only log of events.

use vstd::prelude::*;

use crate::error::Error;
use crate::id::Id;
use crate::time::Timestamp;

verus! {

/// Something that happened in the real world. An entity is a value: to edit
/// one is to append a new value under the same `id`.
#[derive(Debug, PartialEq)]
pub enum Entity {
    Login { id: Id, timestamp: Timestamp },
    Logout { id: Id, timestamp: Timestamp },
    Break { id: Id, timestamp: Timestamp, duration: i64, autoinsert: bool },
    Activity { id: Id, timestamp: Timestamp, duration: i64, value: String, autoinsert: bool },
}

/// The mathematical value of an `Entity`. Durations are whole seconds.
pub enum EntityView {
    Login { id: Id, timestamp: Timestamp },
    Logout { id: Id, timestamp: Timestamp },
    Break { id: Id, timestamp: Timestamp, duration: i64, autoinsert: bool },
    Activity { id: Id, timestamp: Timestamp, duration: i64, value: Seq<char>, autoinsert: bool },
}

impl EntityView {
    /// The logical identity of the entity, whatever its kind.
    pub open spec fn id(self) -> Id {
        match self {
            EntityView::Login { id, .. } => id,
            EntityView::Logout { id, .. } => id,
            EntityView::Break { id, .. } => id,
            EntityView::Activity { id, .. } => id,
        }
    }

    /// When the entity occurred, whatever its kind.
    pub open spec fn timestamp(self) -> Timestamp {
        match self {
            EntityView::Login { timestamp, .. } => timestamp,
            EntityView::Logout { timestamp, .. } => timestamp,
            EntityView::Break { timestamp, .. } => timestamp,
            EntityView::Activity { timestamp, .. } => timestamp,
        }
    }
}

impl View for Entity {
    type V = EntityView;

    open spec fn view(&self) -> EntityView {
        match *self {
            Entity::Login { id, timestamp } => EntityView::Login { id, timestamp },
            Entity::Logout { id, timestamp } => EntityView::Logout { id, timestamp },
            Entity::Break { id, timestamp, duration, autoinsert } => EntityView::Break {
                id,
                timestamp,
                duration,
                autoinsert,
            },
            Entity::Activity { id, timestamp, duration, value, autoinsert } => EntityView::Activity {
                id,
                timestamp,
                duration,
                value: value@,
                autoinsert,
            },
        }
    }
}

impl Entity {
    /// The logical identity of the entity.
    pub fn id(&self) -> (id: Id)
        ensures
            id == self@.id(),
    {
        match self {
            Entity::Login { id, .. } => *id,
            Entity::Logout { id, .. } => *id,
            Entity::Break { id, .. } => *id,
            Entity::Activity { id, .. } => *id,
        }
    }

    /// When the entity occurred.
    pub fn timestamp(&self) -> (timestamp: Timestamp)
        ensures
            timestamp == self@.timestamp(),
    {
        match self {
            Entity::Login { timestamp, .. } => *timestamp,
            Entity::Logout { timestamp, .. } => *timestamp,
            Entity::Break { timestamp, .. } => *timestamp,
            Entity::Activity { timestamp, .. } => *timestamp,
        }
    }
}

impl Clone for Entity {
    fn clone(&self) -> (copy: Entity)
        ensures
            copy@ == self@,
    {
        match self {
            Entity::Login { id, timestamp } => Entity::Login { id: *id, timestamp: *timestamp },
            Entity::Logout { id, timestamp } => Entity::Logout { id: *id, timestamp: *timestamp },
            Entity::Break { id, timestamp, duration, autoinsert } => Entity::Break {
                id: *id,
                timestamp: *timestamp,
                duration: *duration,
                autoinsert: *autoinsert,
            },
            Entity::Activity { id, timestamp, duration, value, autoinsert } => Entity::Activity {
                id: *id,
                timestamp: *timestamp,
                duration: *duration,
                value: value.clone(),
                autoinsert: *autoinsert,
            },
        }
    }
}

/// One record of the log. `id` names the record itself; the entity it acts
/// on is named by the entity's own `id`, or by `entity_id` for a deletion.
#[derive(Debug, PartialEq)]
pub enum Event {
    Create { id: Id, created_at: Timestamp, entity: Entity },
    Edit { id: Id, created_at: Timestamp, entity: Entity },
    Delete { id: Id, created_at: Timestamp, entity_id: Id },
}

/// The mathematical value of an `Event`.
pub enum EventView {
    Create { id: Id, created_at: Timestamp, entity: EntityView },
    Edit { id: Id, created_at: Timestamp, entity: EntityView },
    Delete { id: Id, created_at: Timestamp, entity_id: Id },
}

impl EventView {
    /// The identity of the entity that the event acts on.
    pub open spec fn entity_id(self) -> Id {
        match self {
            EventView::Create { entity, .. } => entity.id(),
            EventView::Edit { entity, .. } => entity.id(),
            EventView::Delete { entity_id, .. } => entity_id,
        }
    }

    /// The event creates the entity `id`.
    pub open spec fn creates(self, id: Id) -> bool {
        self is Create && self.entity_id() == id
    }

    /// The event deletes the entity `id`.
    pub open spec fn deletes(self, id: Id) -> bool {
        self is Delete && self.entity_id() == id
    }
}

impl View for Event {
    type V = EventView;

    open spec fn view(&self) -> EventView {
        match *self {
            Event::Create { id, created_at, entity } => EventView::Create {
                id,
                created_at,
                entity: entity@,
            },
            Event::Edit { id, created_at, entity } => EventView::Edit {
                id,
                created_at,
                entity: entity@,
            },
            Event::Delete { id, created_at, entity_id } => EventView::Delete {
                id,
                created_at,
                entity_id,
            },
        }
    }
}

impl Event {
    /// The identity of the entity that the event acts on.
    pub fn entity_id(&self) -> (id: Id)
        ensures
            id == self@.entity_id(),
    {
        match self {
            Event::Create { entity, .. } => entity.id(),
            Event::Edit { entity, .. } => entity.id(),
            Event::Delete { entity_id, .. } => *entity_id,
        }
    }
}

impl Clone for Event {
    fn clone(&self) -> (copy: Event)
        ensures
            copy@ == self@,
    {
        match self {
            Event::Create { id, created_at, entity } => Event::Create {
                id: *id,
                created_at: *created_at,
                entity: entity.clone(),
            },
            Event::Edit { id, created_at, entity } => Event::Edit {
                id: *id,
                created_at: *created_at,
                entity: entity.clone(),
            },
            Event::Delete { id, created_at, entity_id } => Event::Delete {
                id: *id,
                created_at: *created_at,
                entity_id: *entity_id,
            },
        }
    }
}

/// Some event of `log` creates the entity `id`.
pub open spec fn has_create(log: Seq<EventView>, id: Id) -> bool {
    exists|i: int| 0 <= i < log.len() && (#[trigger] log[i]).creates(id)
}

/// Some event of `log` deletes the entity `id`.
pub open spec fn has_delete(log: Seq<EventView>, id: Id) -> bool {
    exists|i: int| 0 <= i < log.len() && (#[trigger] log[i]).deletes(id)
}

/// Why `event` may not be appended to `log`, or `None` where it may.
///
/// A creation needs an identity that no earlier creation has used. An edit
/// needs an earlier creation of its entity; whether the entity was deleted
/// since is not asked. A deletion needs an earlier creation and no earlier
/// deletion of its entity.
pub open spec fn rejection(log: Seq<EventView>, event: EventView) -> Option<Error> {
    let id = event.entity_id();
    match event {
        EventView::Create { .. } => if has_create(log, id) {
            Some(Error::EntityIdExists(id))
        } else {
            None
        },
        EventView::Edit { .. } => if !has_create(log, id) {
            Some(Error::EntityDoesNotExist(id))
        } else {
            None
        },
        EventView::Delete { .. } => if !has_create(log, id) {
            Some(Error::EntityDoesNotExist(id))
        } else if has_delete(log, id) {
            Some(Error::EntityAlreadyDeleted(id))
        } else {
            None
        },
    }
}

/// The log after an attempt to append `event`: one event longer where the
/// event is accepted, unchanged where it is refused.
pub open spec fn appended(log: Seq<EventView>, event: EventView) -> Seq<EventView> {
    if rejection(log, event) is None {
        log.push(event)
    } else {
        log
    }
}

/// An attempt to append never shortens the log nor changes what it held.
pub proof fn append_keeps_history(log: Seq<EventView>, event: EventView)
    ensures
        log.len() <= appended(log, event).len() <= log.len() + 1,
        appended(log, event).take(log.len() as int) == log,
        forall|id: Id| has_create(log, id) ==> has_create(appended(log, event), id),
        forall|id: Id| has_delete(log, id) ==> has_delete(appended(log, event), id),
{
    let next = appended(log, event);
    assert(next.take(log.len() as int) =~= log);
    assert forall|id: Id| has_create(log, id) implies has_create(next, id) by {
        let i = choose|i: int| 0 <= i < log.len() && (#[trigger] log[i]).creates(id);
        assert(next[i].creates(id));
    }
    assert forall|id: Id| has_delete(log, id) implies has_delete(next, id) by {
        let i = choose|i: int| 0 <= i < log.len() && (#[trigger] log[i]).deletes(id);
        assert(next[i].deletes(id));
    }
}

/// Of two attempts to create the same entity the second is refused, whatever
/// became of the first, and a refused attempt leaves the log as it was.
pub proof fn second_create_is_refused(log: Seq<EventView>, first: EventView, second: EventView)
    requires
        first is Create,
        second is Create,
        first.entity_id() == second.entity_id(),
    ensures
        rejection(appended(log, first), second) == Some(Error::EntityIdExists(second.entity_id())),
        appended(appended(log, first), second) == appended(log, first),
{
    let id = first.entity_id();
    let next = appended(log, first);
    if rejection(log, first) is None {
        assert(next[log.len() as int].creates(id));
    }
    assert(has_create(next, id));
}

/// An edit of an entity that the log never created is refused.
pub proof fn edit_needs_create(log: Seq<EventView>, event: EventView)
    requires
        event is Edit,
        !has_create(log, event.entity_id()),
    ensures
        rejection(log, event) == Some(Error::EntityDoesNotExist(event.entity_id())),
        appended(log, event) == log,
{
}

/// An edit of an entity that the log created is accepted, deleted or not.
pub proof fn edit_after_create_is_accepted(log: Seq<EventView>, event: EventView)
    requires
        event is Edit,
        has_create(log, event.entity_id()),
    ensures
        rejection(log, event) is None,
        appended(log, event) == log.push(event),
{
}

/// A deletion of an entity that the log never created is refused.
pub proof fn delete_needs_create(log: Seq<EventView>, event: EventView)
    requires
        event is Delete,
        !has_create(log, event.entity_id()),
    ensures
        rejection(log, event) == Some(Error::EntityDoesNotExist(event.entity_id())),
        appended(log, event) == log,
{
}

/// An entity that was created and not yet deleted can be deleted once: the
/// first deletion is accepted, and a second one is refused as a repetition.
pub proof fn second_delete_is_refused(log: Seq<EventView>, first: EventView, second: EventView)
    requires
        first is Delete,
        second is Delete,
        first.entity_id() == second.entity_id(),
        has_create(log, first.entity_id()),
        !has_delete(log, first.entity_id()),
    ensures
        rejection(log, first) is None,
        rejection(log.push(first), second) == Some(
            Error::EntityAlreadyDeleted(second.entity_id()),
        ),
        appended(appended(log, first), second) == log.push(first),
{
    let id = first.entity_id();
    let next = log.push(first);
    append_keeps_history(log, first);
    assert(next[log.len() as int].deletes(id));
    assert(has_delete(next, id));
}

/// A log is well formed when every event was acceptable after the events
/// before it. A log that grew by `push` alone is well formed.
pub open spec fn well_formed(log: Seq<EventView>) -> bool {
    forall|i: int| 0 <= i < log.len() ==> rejection(log.take(i), #[trigger] log[i]) is None
}

/// Appending keeps a well-formed log well formed.
pub proof fn append_keeps_well_formed(log: Seq<EventView>, event: EventView)
    requires
        well_formed(log),
    ensures
        well_formed(appended(log, event)),
{
    let next = appended(log, event);
    assert forall|i: int| 0 <= i < next.len() implies rejection(next.take(i), #[trigger] next[i]) is None by {
        if i < log.len() {
            assert(next.take(i) =~= log.take(i));
            assert(next[i] == log[i]);
        } else {
            assert(next.take(i) =~= log);
        }
    }
}

/// The values of a sequence of events.
pub open spec fn event_views(events: Seq<Event>) -> Seq<EventView> {
    events.map_values(|event: Event| event@)
}

/// An ordered, append-only sequence of events.
pub struct Stream {
    events: Vec<Event>,
}

impl View for Stream {
    type V = Seq<EventView>;

    closed spec fn view(&self) -> Seq<EventView> {
        event_views(self.events@)
    }
}

impl Stream {
    /// The empty log.
    pub fn new() -> (stream: Stream)
        ensures
            stream@ == Seq::<EventView>::empty(),
    {
        Stream { events: Vec::new() }
    }

    /// The log that holds `events`, whatever the append rules say of them.
    pub(crate) fn from_events(events: Vec<Event>) -> (stream: Stream)
        ensures
            stream@ == event_views(events@),
    {
        Stream { events }
    }

    /// The number of events.
    pub fn len(&self) -> (n: usize)
        ensures
            n == self@.len(),
    {
        self.events.len()
    }

    /// The event at position `index`, counted in insertion order from zero.
    pub fn get(&self, index: usize) -> (event: Option<&Event>)
        ensures
            index < self@.len() ==> (event matches Some(e) && e@ == self@[index as int]),
            index >= self@.len() ==> event is None,
    {
        if index < self.events.len() {
            Some(&self.events[index])
        } else {
            None
        }
    }

    /// The events in insertion order. The iterator borrows the log and can
    /// be asked for again at any time.
    pub fn iter(&self) -> (events: std::slice::Iter<'_, Event>)
        ensures
            event_views(vstd::std_specs::slice::into_iter_elts(events)) == self@,
    {
        broadcast use vstd::std_specs::slice::axiom_spec_slice_iter;

        let events = self.events.as_slice().iter();
        assert(vstd::std_specs::slice::into_iter_elts(events) =~= self.events@);
        events
    }

    /// Appends `event` if the log's history allows it, and says why not
    /// otherwise. A refused event leaves the log as it was.
    pub fn push(&mut self, event: Event) -> (r: Result<(), Error>)
        ensures
            final(self)@ == appended(old(self)@, event@),
            match rejection(old(self)@, event@) {
                None => r is Ok,
                Some(error) => r == Err::<(), Error>(error),
            },
    {
        let id = event.entity_id();
        match &event {
            Event::Edit { .. } => {
                if !self.create_exists(&id) {
                    return Err(Error::EntityDoesNotExist(id));
                }
            },
            Event::Create { .. } => {
                if self.create_exists(&id) {
                    return Err(Error::EntityIdExists(id));
                }
            },
            Event::Delete { .. } => {
                if !self.create_exists(&id) {
                    return Err(Error::EntityDoesNotExist(id));
                }
                if self.delete_exists(&id) {
                    return Err(Error::EntityAlreadyDeleted(id));
                }
            },
        }
        self.events.push(event);
        assert(self@ =~= old(self)@.push(event@));
        Ok(())
    }

    /// Whether some event of the log deletes the entity `id`.
    pub fn delete_exists(&self, id: &Id) -> (found: bool)
        ensures
            found == has_delete(self@, *id),
    {
        let mut i: usize = 0;
        while i < self.events.len()
            invariant
                i <= self.events.len(),
                forall|j: int| 0 <= j < i ==> !(#[trigger] self@[j]).deletes(*id),
            decreases self.events.len() - i,
        {
            if let Event::Delete { entity_id, .. } = &self.events[i] {
                if *entity_id == *id {
                    assert(self@[i as int].deletes(*id));
                    return true;
                }
            }
            i += 1;
        }
        false
    }

    /// Whether some event of the log creates the entity `id`.
    pub fn create_exists(&self, id: &Id) -> (found: bool)
        ensures
            found == has_create(self@, *id),
    {
        let mut i: usize = 0;
        while i < self.events.len()
            invariant
                i <= self.events.len(),
                forall|j: int| 0 <= j < i ==> !(#[trigger] self@[j]).creates(*id),
            decreases self.events.len() - i,
        {
            if let Event::Create { entity, .. } = &self.events[i] {
                if entity.id() == *id {
                    assert(self@[i as int].creates(*id));
                    return true;
                }
            }
            i += 1;
        }
        false
    }
}

impl<'a> IntoIterator for &'a Stream {
    type Item = &'a Event;

    type IntoIter = std::slice::Iter<'a, Event>;

    fn into_iter(self) -> (events: std::slice::Iter<'a, Event>)
        ensures
            event_views(vstd::std_specs::slice::into_iter_elts(events)) == self@,
    {
        self.iter()
    }
}

} // verus!
