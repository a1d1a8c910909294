//! Decoding of interaction ids of the form `<lobby id><event suffix>`.
use vstd::prelude::*;
use crate::content::{kind_of, LobbyContent};
use crate::registry::{registered_ids, Dispatch, LobbyRegistry};
use crate::session::LobbyEvent;
use crate::text::{is_digit, str_equals};

verus! {

/// Length, in characters, of a lobby id (a hyphenated UUID).
pub const LOBBY_ID_LEN: usize = 36;

/// The lobby interactions that are routed to a lobby's actor.
#[derive(Clone, Copy, Debug, PartialEq, Eq, Structural)]
pub enum InteractionKind {
    /// A category button (`guardian-raid`, `abyss-dungeon`, `abyss-raid`).
    Content(LobbyContent),
    /// The instance menu (no suffix); its value names the instance.
    InstancePicked,
    /// `add`: the roster editor's add menu; its value is a candidate position.
    AddPlayer,
    /// `remove`: the roster editor's remove menu; its value is a roster position.
    RemovePlayer,
    /// `post-lobby`: publish privately.
    PostLobby,
    /// `open-lobby`: publish with join and leave controls.
    OpenLobby,
    /// `close-lobby`: abandon the lobby.
    CloseLobby,
    /// `lobby-join`: a user asks to join.
    LobbyJoin,
    /// `player-join`: a user picked the character to join with.
    PlayerJoin,
    /// `lobby-leave`: a user leaves.
    LobbyLeave,
}

/// Why an interaction id was not routed.
#[derive(Clone, Copy, Debug, PartialEq, Eq, Structural)]
pub enum RouteError {
    /// Shorter than a lobby id.
    Unparseable,
    /// The suffix is not a lobby interaction (it belongs to someone else).
    Untracked,
}

/// The tracked interaction named by `suffix`, if any.
pub open spec fn tracked_kind(suffix: Seq<char>) -> Option<InteractionKind> {
    if suffix.len() == 0 {
        Some(InteractionKind::InstancePicked)
    } else if kind_of(suffix) is Some {
        Some(InteractionKind::Content(kind_of(suffix)->Some_0))
    } else if suffix == "add"@ {
        Some(InteractionKind::AddPlayer)
    } else if suffix == "remove"@ {
        Some(InteractionKind::RemovePlayer)
    } else if suffix == "post-lobby"@ {
        Some(InteractionKind::PostLobby)
    } else if suffix == "open-lobby"@ {
        Some(InteractionKind::OpenLobby)
    } else if suffix == "close-lobby"@ {
        Some(InteractionKind::CloseLobby)
    } else if suffix == "lobby-join"@ {
        Some(InteractionKind::LobbyJoin)
    } else if suffix == "player-join"@ {
        Some(InteractionKind::PlayerJoin)
    } else if suffix == "lobby-leave"@ {
        Some(InteractionKind::LobbyLeave)
    } else {
        None
    }
}

/// The tracked interaction named by `suffix`, if any.
pub fn kind_of_suffix(suffix: &str) -> (r: Option<InteractionKind>)
    ensures
        r == tracked_kind(suffix@),
{
    if suffix.unicode_len() == 0 {
        return Some(InteractionKind::InstancePicked);
    }
    match LobbyContent::from_kind(suffix) {
        Some(c) => {
            return Some(InteractionKind::Content(c));
        },
        None => {},
    }
    if str_equals(suffix, "add") {
        Some(InteractionKind::AddPlayer)
    } else if str_equals(suffix, "remove") {
        Some(InteractionKind::RemovePlayer)
    } else if str_equals(suffix, "post-lobby") {
        Some(InteractionKind::PostLobby)
    } else if str_equals(suffix, "open-lobby") {
        Some(InteractionKind::OpenLobby)
    } else if str_equals(suffix, "close-lobby") {
        Some(InteractionKind::CloseLobby)
    } else if str_equals(suffix, "lobby-join") {
        Some(InteractionKind::LobbyJoin)
    } else if str_equals(suffix, "player-join") {
        Some(InteractionKind::PlayerJoin)
    } else if str_equals(suffix, "lobby-leave") {
        Some(InteractionKind::LobbyLeave)
    } else {
        None
    }
}

/// Splits an interaction id into the lobby id (its first 36 characters)
/// and the interaction that its remaining characters name.
pub fn split_interaction_id(custom_id: &str) -> (r: Result<(String, InteractionKind), RouteError>)
    ensures
        custom_id@.len() < LOBBY_ID_LEN ==> r == Err::<(String, InteractionKind), RouteError>(
            RouteError::Unparseable,
        ),
        custom_id@.len() >= LOBBY_ID_LEN ==> match tracked_kind(
            custom_id@.subrange(LOBBY_ID_LEN as int, custom_id@.len() as int),
        ) {
            None => r == Err::<(String, InteractionKind), RouteError>(RouteError::Untracked),
            Some(k) => r is Ok && r->Ok_0.0@ == custom_id@.subrange(0, LOBBY_ID_LEN as int)
                && r->Ok_0.1 == k,
        },
{
    let n = custom_id.unicode_len();
    if n < LOBBY_ID_LEN {
        return Err(RouteError::Unparseable);
    }
    let suffix = custom_id.substring_char(LOBBY_ID_LEN, n);
    match kind_of_suffix(suffix) {
        None => Err(RouteError::Untracked),
        Some(k) => {
            let id = String::from_str(custom_id.substring_char(0, LOBBY_ID_LEN));
            Ok((id, k))
        },
    }
}

/// The number the decimal digits `s` spell.
pub open spec fn digits_value(s: Seq<char>) -> int
    decreases s.len(),
{
    if s.len() == 0 {
        0
    } else {
        digits_value(s.drop_last()) * 10 + (s.last() as int - '0' as int)
    }
}

/// The position that `s` names: one or more decimal digits whose value fits
/// in `usize`.
pub open spec fn position_of_text(s: Seq<char>) -> Option<usize> {
    if s.len() > 0 && (forall|k: int| 0 <= k < s.len() ==> is_digit(#[trigger] s[k]))
        && digits_value(s) <= usize::MAX {
        Some(digits_value(s) as usize)
    } else {
        None
    }
}

proof fn lemma_digits_value_grows(s: Seq<char>, i: int)
    requires
        0 <= i <= s.len(),
        forall|k: int| 0 <= k < s.len() ==> is_digit(#[trigger] s[k]),
    ensures
        digits_value(s) >= digits_value(s.take(i)) >= 0,
    decreases s.len(),
{
    if s.len() > i {
        lemma_digits_value_grows(s.drop_last(), i);
        assert(s.drop_last().take(i) =~= s.take(i));
        assert(is_digit(s[s.len() - 1]));
    } else {
        assert(s.take(i) =~= s);
        if s.len() > 0 {
            lemma_digits_value_grows(s.drop_last(), s.len() - 1);
            assert(s.drop_last().take(s.len() - 1) =~= s.drop_last());
            assert(is_digit(s[s.len() - 1]));
        }
    }
}

/// Reads a roster or candidate position written in decimal.
pub fn parse_position(text: &str) -> (r: Option<usize>)
    ensures
        r == position_of_text(text@),
{
    let n = text.unicode_len();
    if n == 0 {
        return None;
    }
    let mut acc: usize = 0;
    let mut i: usize = 0;
    while i < n
        invariant
            n == text@.len(),
            i <= n,
            forall|k: int| 0 <= k < i ==> is_digit(#[trigger] text@[k]),
            acc == digits_value(text@.take(i as int)),
        decreases n - i,
    {
        let c = text.get_char(i);
        if c < '0' || c > '9' {
            assert(!is_digit(text@[i as int]));
            return None;
        }
        assert(text@.take(i + 1).drop_last() =~= text@.take(i as int));
        assert(text@.take(i + 1).last() == c);
        let d = (c as u32 - '0' as u32) as usize;
        match acc.checked_mul(10) {
            None => {
                proof { lemma_overflow_is_final(text@, i as int); }
                return None;
            },
            Some(m) => match m.checked_add(d) {
                None => {
                    proof { lemma_overflow_is_final(text@, i as int); }
                    return None;
                },
                Some(v) => {
                    acc = v;
                },
            },
        }
        i = i + 1;
    }
    assert(text@.take(n as int) =~= text@);
    Some(acc)
}

/// Once the digits up to `i` spell more than `usize::MAX`, the text names no
/// position.
proof fn lemma_overflow_is_final(s: Seq<char>, i: int)
    requires
        0 <= i < s.len(),
        forall|k: int| 0 <= k <= i ==> is_digit(#[trigger] s[k]),
        digits_value(s.take(i + 1)) > usize::MAX,
    ensures
        position_of_text(s) is None,
{
    if forall|k: int| 0 <= k < s.len() ==> is_digit(#[trigger] s[k]) {
        lemma_digits_value_grows(s, i + 1);
    }
}

/// The text of an optional menu value.
pub open spec fn value_text(value: Option<&str>) -> Option<Seq<char>> {
    match value {
        Some(v) => Some(v@),
        None => None,
    }
}

/// Whether the event of an interaction of kind `k` needs a lookup by the
/// host (the instance description, or the character picked).
pub open spec fn needs_lookup(k: InteractionKind) -> bool {
    k == InteractionKind::InstancePicked || k == InteractionKind::PlayerJoin
}

/// The event an interaction of kind `kind` by `user`, with menu value
/// `value`, stands for.
pub open spec fn event_for(kind: InteractionKind, user: u64, value: Option<Seq<char>>) -> Option<LobbyEvent> {
    match kind {
        InteractionKind::Content(c) => Some(LobbyEvent::ContentChosen(c)),
        InteractionKind::AddPlayer => match value {
            Some(v) => match position_of_text(v) {
                Some(i) => Some(LobbyEvent::PlayerAddRequested(i)),
                None => None,
            },
            None => None,
        },
        InteractionKind::RemovePlayer => match value {
            Some(v) => match position_of_text(v) {
                Some(i) => Some(LobbyEvent::PlayerRemoveRequested(i)),
                None => None,
            },
            None => None,
        },
        InteractionKind::PostLobby => Some(LobbyEvent::PublishPrivate),
        InteractionKind::OpenLobby => Some(LobbyEvent::PublishPublic),
        InteractionKind::CloseLobby => Some(LobbyEvent::Close),
        InteractionKind::LobbyJoin => Some(LobbyEvent::JoinRequested(user)),
        InteractionKind::LobbyLeave => Some(LobbyEvent::ExternalLeave(user)),
        InteractionKind::InstancePicked => None,
        InteractionKind::PlayerJoin => None,
    }
}

/// The event an interaction of kind `kind` by `user`, with menu value
/// `value`, stands for. `None` for the kinds whose event needs a lookup by
/// the host (`InstancePicked`, `PlayerJoin`) and for a missing or unreadable
/// position.
pub fn lobby_event(kind: InteractionKind, user: u64, value: Option<&str>) -> (r: Option<LobbyEvent>)
    ensures
        r == event_for(kind, user, value_text(value)),
{
    match kind {
        InteractionKind::Content(c) => Some(LobbyEvent::ContentChosen(c)),
        InteractionKind::AddPlayer => match value {
            Some(v) => match parse_position(v) {
                Some(i) => Some(LobbyEvent::PlayerAddRequested(i)),
                None => None,
            },
            None => None,
        },
        InteractionKind::RemovePlayer => match value {
            Some(v) => match parse_position(v) {
                Some(i) => Some(LobbyEvent::PlayerRemoveRequested(i)),
                None => None,
            },
            None => None,
        },
        InteractionKind::PostLobby => Some(LobbyEvent::PublishPrivate),
        InteractionKind::OpenLobby => Some(LobbyEvent::PublishPublic),
        InteractionKind::CloseLobby => Some(LobbyEvent::Close),
        InteractionKind::LobbyJoin => Some(LobbyEvent::JoinRequested(user)),
        InteractionKind::LobbyLeave => Some(LobbyEvent::ExternalLeave(user)),
        InteractionKind::InstancePicked => None,
        InteractionKind::PlayerJoin => None,
    }
}

/// What the router did with an interaction.
#[derive(Debug)]
pub enum Routed {
    /// The event is in the lobby's mailbox.
    Delivered,
    /// No live lobby has this id, or its mailbox is closed.
    StaleLobby,
    /// The id is shorter than a lobby id.
    Unparseable,
    /// The suffix is not a lobby interaction.
    Untracked,
    /// The interaction lacks a usable menu value.
    Unusable,
    /// The host must look something up to build the event of this lobby id
    /// and interaction kind, then dispatch it.
    NeedsLookup(String, InteractionKind),
}

/// Routes the interaction `custom_id` of `user` (with menu value `value`)
/// to its lobby through `registry`, without waiting. A tracked interaction
/// for a lobby id that is not registered is reported as `StaleLobby`,
/// whatever its kind.
pub fn route(registry: &LobbyRegistry, custom_id: &str, user: u64, value: Option<&str>) -> (r: Routed)
    ensures
        custom_id@.len() < LOBBY_ID_LEN ==> r is Unparseable,
        custom_id@.len() >= LOBBY_ID_LEN ==> ({
            let id = custom_id@.subrange(0, LOBBY_ID_LEN as int);
            match tracked_kind(custom_id@.subrange(LOBBY_ID_LEN as int, custom_id@.len() as int)) {
                None => r is Untracked,
                Some(k) => if !registered_ids(*registry).contains(id) {
                    r is StaleLobby
                } else if needs_lookup(k) {
                    r is NeedsLookup && r->NeedsLookup_0@ == id && r->NeedsLookup_1 == k
                } else if event_for(k, user, value_text(value)) is None {
                    r is Unusable
                } else {
                    r is Delivered || r is StaleLobby
                },
            }
        }),
{
    match split_interaction_id(custom_id) {
        Err(RouteError::Unparseable) => Routed::Unparseable,
        Err(RouteError::Untracked) => Routed::Untracked,
        Ok((id, kind)) => {
            if !registry.is_registered(id.as_str()) {
                return Routed::StaleLobby;
            }
            if kind == InteractionKind::InstancePicked || kind == InteractionKind::PlayerJoin {
                return Routed::NeedsLookup(id, kind);
            }
            match lobby_event(kind, user, value) {
                None => Routed::Unusable,
                Some(event) => match registry.dispatch(id.as_str(), event) {
                    Dispatch::Delivered => Routed::Delivered,
                    Dispatch::StaleLobby => Routed::StaleLobby,
                },
            }
        },
    }
}

} // verus!
