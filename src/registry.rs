//! The registry of live lobbies: lobby id → the lobby actor's mailbox.
use vstd::prelude::*;
use tokio::sync::mpsc::UnboundedSender;
use crate::session::LobbyEvent;

verus! {

#[verifier::external_type_specification]
#[verifier::external_body]
#[verifier::reject_recursive_types(T)]
pub struct ExUnboundedSender<T>(UnboundedSender<T>);

/// The ids of the lobbies held by a registry.
pub uninterp spec fn registered_ids(r: LobbyRegistry) -> Set<Seq<char>>;

/// Relies on tokio's `UnboundedSender::send`: it never waits, and it fails
/// only when the receiving half was closed, which the caller cannot know in
/// advance.
#[verifier::external_body]
fn send_event(tx: &UnboundedSender<LobbyEvent>, event: LobbyEvent) -> (delivered: bool) {
    tx.send(event).is_ok()
}

/// Map from lobby id to mailbox, kept in a `hashbrown::HashMap`.
#[verifier::external_body]
pub struct LobbyRegistry {
    map: hashbrown::HashMap<String, UnboundedSender<LobbyEvent>>,
}

/// Why a registration was refused.
#[derive(Clone, Copy, Debug, PartialEq, Eq, Structural)]
pub enum RegistryError {
    /// A lobby with this id is already live.
    AlreadyRegistered,
}

/// What became of an event sent to a lobby.
#[derive(Clone, Copy, Debug, PartialEq, Eq, Structural)]
pub enum Dispatch {
    /// The event is in the lobby's mailbox.
    Delivered,
    /// No live lobby has this id, or its mailbox is closed.
    StaleLobby,
}

impl LobbyRegistry {
    /// Relies on `hashbrown::HashMap::new`: the map starts empty.
    #[verifier::external_body]
    fn empty_map() -> (r: LobbyRegistry)
        ensures
            registered_ids(r) == Set::<Seq<char>>::empty(),
    {
        LobbyRegistry { map: hashbrown::HashMap::new() }
    }

    /// Relies on `hashbrown::HashMap::contains_key`.
    #[verifier::external_body]
    fn has_key(&self, id: &str) -> (r: bool)
        ensures
            r == registered_ids(*self).contains(id@),
    {
        self.map.contains_key(id)
    }

    /// Relies on `hashbrown::HashMap::insert`: afterwards the key is present
    /// and no other key was added or removed.
    #[verifier::external_body]
    fn put(&mut self, id: String, mailbox: UnboundedSender<LobbyEvent>)
        ensures
            registered_ids(*final(self)) == registered_ids(*old(self)).insert(id@),
    {
        self.map.insert(id, mailbox);
    }

    /// Relies on `hashbrown::HashMap::remove`: afterwards the key is absent
    /// and no other key was added or removed.
    #[verifier::external_body]
    fn take(&mut self, id: &str)
        ensures
            registered_ids(*final(self)) == registered_ids(*old(self)).remove(id@),
    {
        self.map.remove(id);
    }

    /// Relies on `hashbrown::HashMap::get`: a value exactly for a present key.
    #[verifier::external_body]
    fn mailbox(&self, id: &str) -> (r: Option<&UnboundedSender<LobbyEvent>>)
        ensures
            r.is_some() == registered_ids(*self).contains(id@),
    {
        self.map.get(id)
    }

    /// An empty registry.
    pub fn new() -> (r: LobbyRegistry)
        ensures
            registered_ids(r) == Set::<Seq<char>>::empty(),
    {
        LobbyRegistry::empty_map()
    }

    /// Whether a lobby with this id is live.
    pub fn is_registered(&self, id: &str) -> (r: bool)
        ensures
            r == registered_ids(*self).contains(id@),
    {
        self.has_key(id)
    }

    /// Makes the lobby `id` reachable through `mailbox`. Refused, with the
    /// registry unchanged, when the id is already live.
    pub fn register(&mut self, id: String, mailbox: UnboundedSender<LobbyEvent>) -> (r: Result<(), RegistryError>)
        ensures
            r is Err <==> registered_ids(*old(self)).contains(id@),
            r is Err ==> r == Err::<(), RegistryError>(RegistryError::AlreadyRegistered)
                && registered_ids(*final(self)) == registered_ids(*old(self)),
            r is Ok ==> registered_ids(*final(self)) == registered_ids(*old(self)).insert(id@),
    {
        if self.has_key(id.as_str()) {
            return Err(RegistryError::AlreadyRegistered);
        }
        self.put(id, mailbox);
        Ok(())
    }

    /// The mailbox of the lobby `id`, if it is live.
    pub fn lookup(&self, id: &str) -> (r: Option<&UnboundedSender<LobbyEvent>>)
        ensures
            r.is_some() == registered_ids(*self).contains(id@),
    {
        self.mailbox(id)
    }

    /// Removes the lobby `id`; nothing happens when it is not live.
    pub fn deregister(&mut self, id: &str)
        ensures
            registered_ids(*final(self)) == registered_ids(*old(self)).remove(id@),
            !registered_ids(*old(self)).contains(id@) ==> registered_ids(*final(self))
                == registered_ids(*old(self)),
    {
        self.take(id);
        proof {
            if !registered_ids(*old(self)).contains(id@) {
                assert(registered_ids(*old(self)).remove(id@) =~= registered_ids(*old(self)));
            }
        }
    }

    /// Sends `event` to the lobby `id` without waiting. An id that is not
    /// live, or a lobby whose mailbox is closed, gives `StaleLobby`.
    pub fn dispatch(&self, id: &str, event: LobbyEvent) -> (r: Dispatch)
        ensures
            !registered_ids(*self).contains(id@) ==> r == Dispatch::StaleLobby,
            r == Dispatch::Delivered ==> registered_ids(*self).contains(id@),
    {
        match self.mailbox(id) {
            None => Dispatch::StaleLobby,
            Some(tx) => {
                if send_event(tx, event) {
                    Dispatch::Delivered
                } else {
                    Dispatch::StaleLobby
                }
            },
        }
    }
}

} // verus!
