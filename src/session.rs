//! The lobby session: its state, the events its actor processes, and the
//! transition function that turns each event into a new state and effects.
use vstd::prelude::*;
use crate::character::Character;
use crate::content::{ContentInfo, LobbyContent};
use crate::roster::{
    all_eligible, distinct_owners, eligible, filter_eligible, filter_out_owner, is_eligible,
    lemma_eligible_after_drop, lemma_eligible_after_join, lemma_eligible_after_leave,
    lemma_eligible_members, lemma_push_keeps_distinct, lemma_remove_keeps_distinct, owner_in,
    owner_position, owner_present, without_owner,
};
use crate::timer::{
    install_all, lemma_install_all_generation, TimerController, TimerPlan, GRACE_PERIOD_SECS,
    REMINDER_LEAD_SECS,
};

verus! {

/// Where a lobby stands in its formation workflow.
#[derive(Clone, Copy, Debug, PartialEq, Eq, Structural)]
pub enum State {
    ContentSelection,
    FirstPrompt,
    CollectingPlayers,
    PrivateFinalized,
    PublicFinalized,
    Reconstructed,
}

/// Whether formation is over (the lobby was published or recovered).
pub open spec fn is_finalized(s: State) -> bool {
    s == State::PrivateFinalized || s == State::PublicFinalized || s == State::Reconstructed
}

/// An event delivered to a lobby's actor.
#[derive(Debug)]
pub enum LobbyEvent {
    /// The category was picked.
    ContentChosen(LobbyContent),
    /// The instance was picked.
    ContentInfoChosen(ContentInfo),
    /// The candidate at this position is to be moved into the roster.
    PlayerAddRequested(usize),
    /// The roster member at this position is to be removed.
    PlayerRemoveRequested(usize),
    PublishPrivate,
    PublishPublic,
    Close,
    /// The user asked to join a published lobby.
    JoinRequested(u64),
    /// A user joins a published lobby with this character.
    ExternalJoin(Character),
    /// The user leaves a published lobby.
    ExternalLeave(u64),
    /// The lobby is rescheduled to this Unix time (seconds).
    ScheduleChanged(i64),
    /// The reminder of the timer chain of this generation is due.
    ReminderDue(u64),
    /// The expiry of the timer chain of this generation is due.
    ExpireDue(u64),
}

/// Why an event changed nothing.
#[derive(Clone, Copy, Debug, PartialEq, Eq, Structural)]
pub enum Notice {
    /// The roster is at capacity.
    Full,
    /// The user is already in the roster.
    AlreadyJoined,
    /// The user or position is not in the roster.
    NotParticipant,
    /// The event does not apply in the lobby's current state.
    Rejected,
    /// The lobby is closed.
    Closed,
}

/// An effect the host performs after a transition, in order.
#[derive(Debug)]
pub enum Effect {
    /// Show the instances of this category to pick from.
    ShowInstancePicker(LobbyContent),
    /// Fetch the guild's eligible characters and hand them to `set_candidates`.
    RefreshCandidates,
    /// Render the roster editor.
    RenderEditor,
    /// Render the published lobby; `true` adds the join and leave controls.
    RenderPublished(bool),
    /// Render the lobby after a change.
    Render,
    /// Persist the whole session.
    SaveSession,
    /// Abort the live timer chain.
    CancelTimer,
    /// Start a timer chain.
    InstallTimer(TimerPlan),
    /// Offer the user their characters to join with.
    OfferCharacters(u64),
    /// Persist that the character joined.
    SaveJoin(Character),
    /// Persist that the character left.
    SaveRemoval(Character),
    /// Tell the roster that the lobby moved to this time.
    NotifyRescheduled(i64),
    /// Remind the roster that the lobby starts soon.
    NotifyReminder,
    /// Mark the session inactive in storage.
    MarkInactive,
    /// Remove the lobby from the registry.
    Deregister,
    /// Tell the requester why nothing happened.
    Inform(Notice),
}

/// The state of one lobby. It is owned by the lobby's actor, which changes
/// it through `handle` (and `set_candidates` when the host answers a
/// `RefreshCandidates` effect).
pub struct LobbyContext {
    /// Routing key, fixed for the lobby's life.
    pub id: String,
    pub guild_id: u64,
    pub channel_id: u64,
    pub message_id: u64,
    pub lobby_master: u64,
    pub state: State,
    pub content: Option<LobbyContent>,
    pub content_info: Option<ContentInfo>,
    /// Scheduled Unix time (seconds), if set.
    pub lobby_time: Option<i64>,
    pub timer: TimerController,
    /// Candidate roster.
    pub players: Vec<Character>,
    /// Active roster, in slot order.
    pub active_players: Vec<Character>,
    /// False once the lobby is closed or expired.
    pub active: bool,
}

/// The mathematical value of a `LobbyContext`.
pub struct LobbyView {
    pub id: Seq<char>,
    pub guild_id: u64,
    pub channel_id: u64,
    pub message_id: u64,
    pub lobby_master: u64,
    pub state: State,
    pub content: Option<LobbyContent>,
    pub content_info: Option<ContentInfo>,
    pub lobby_time: Option<i64>,
    pub timer: TimerController,
    pub players: Seq<Character>,
    pub active_players: Seq<Character>,
    pub active: bool,
}

impl View for LobbyContext {
    type V = LobbyView;

    open spec fn view(&self) -> LobbyView {
        LobbyView {
            id: self.id@,
            guild_id: self.guild_id,
            channel_id: self.channel_id,
            message_id: self.message_id,
            lobby_master: self.lobby_master,
            state: self.state,
            content: self.content,
            content_info: self.content_info,
            lobby_time: self.lobby_time,
            timer: self.timer,
            players: self.players@,
            active_players: self.active_players@,
            active: self.active,
        }
    }
}

impl LobbyView {
    /// Number of roster slots (zero until the instance is chosen).
    pub open spec fn capacity(self) -> nat {
        match self.content_info {
            Some(info) => info.content_size as nat,
            None => 0,
        }
    }

    /// Minimum item level of the chosen instance.
    pub open spec fn min_level(self) -> i32 {
        match self.content_info {
            Some(info) => info.ilvl_req,
            None => i32::MAX,
        }
    }

    pub open spec fn is_full(self) -> bool {
        self.active_players.len() >= self.capacity()
    }

    /// The invariant of a lobby.
    pub open spec fn wf(self) -> bool {
        &&& self.active_players.len() <= self.capacity()
        &&& distinct_owners(self.active_players)
        &&& all_eligible(self.players, self.min_level(), self.active_players)
        &&& self.timer.wf()
        &&& self.timer.live.is_some() ==> is_finalized(self.state)
        &&& is_finalized(self.state) ==> self.players.len() == 0
        &&& (self.state == State::CollectingPlayers || is_finalized(self.state))
            ==> self.content_info.is_some()
        &&& (self.state == State::ContentSelection || self.state == State::FirstPrompt)
            ==> self.content_info.is_none() && self.active_players.len() == 0
                && self.players.len() == 0
    }

    /// The lobby unchanged, with one notice.
    pub open spec fn refuse(self, n: Notice) -> (LobbyView, Seq<Effect>) {
        (self, seq![Effect::Inform(n)])
    }

    /// Whether `e` applies in the lobby's current workflow state.
    pub open spec fn accepts(self, e: LobbyEvent) -> bool {
        match e {
            LobbyEvent::ContentChosen(_) => self.state == State::ContentSelection,
            LobbyEvent::ContentInfoChosen(_) => self.state == State::FirstPrompt,
            LobbyEvent::PlayerAddRequested(_) => self.state == State::CollectingPlayers,
            LobbyEvent::PlayerRemoveRequested(_) => self.state == State::CollectingPlayers,
            LobbyEvent::PublishPrivate => self.state == State::CollectingPlayers,
            LobbyEvent::PublishPublic => self.state == State::CollectingPlayers,
            LobbyEvent::Close => true,
            LobbyEvent::ExpireDue(_) => true,
            _ => is_finalized(self.state),
        }
    }

    /// The lobby published, privately or publicly.
    pub open spec fn published(self, public: bool) -> (LobbyView, Seq<Effect>) {
        let state = if public { State::PublicFinalized } else { State::PrivateFinalized };
        let base = LobbyView { state, players: Seq::empty(), ..self };
        match self.lobby_time {
            Some(t) => if self.timer.generation < u64::MAX {
                let timer = self.timer.installed(t, REMINDER_LEAD_SECS, GRACE_PERIOD_SECS);
                (
                    LobbyView { timer, ..base },
                    seq![
                        Effect::SaveSession,
                        Effect::InstallTimer(timer.live.unwrap()),
                        Effect::RenderPublished(public),
                    ],
                )
            } else {
                (base, seq![Effect::SaveSession, Effect::RenderPublished(public)])
            },
            None => (base, seq![Effect::SaveSession, Effect::RenderPublished(public)]),
        }
    }

    /// The lobby after a user with character `c` joined.
    pub open spec fn joined(self, c: Character) -> (LobbyView, Seq<Effect>) {
        if self.is_full() {
            self.refuse(Notice::Full)
        } else if owner_in(self.active_players, c.id) {
            self.refuse(Notice::AlreadyJoined)
        } else {
            (
                LobbyView { active_players: self.active_players.push(c), ..self },
                seq![Effect::SaveJoin(c), Effect::Render],
            )
        }
    }

    /// The lobby after user `user` left.
    pub open spec fn left(self, user: u64) -> (LobbyView, Seq<Effect>) {
        if !owner_in(self.active_players, user) {
            self.refuse(Notice::NotParticipant)
        } else {
            let k = choose|k: int| 0 <= k < self.active_players.len() && #[trigger] self.active_players[k].id == user;
            (
                LobbyView { active_players: self.active_players.remove(k), ..self },
                seq![Effect::SaveRemoval(self.active_players[k]), Effect::Render],
            )
        }
    }

    /// The lobby and the effects after event `e`.
    pub open spec fn next(self, e: LobbyEvent) -> (LobbyView, Seq<Effect>) {
        if !self.active {
            self.refuse(Notice::Closed)
        } else if !self.accepts(e) {
            self.refuse(Notice::Rejected)
        } else {
            match e {
                LobbyEvent::ContentChosen(c) => (
                    LobbyView { state: State::FirstPrompt, content: Some(c), ..self },
                    seq![Effect::ShowInstancePicker(c)],
                ),
                LobbyEvent::ContentInfoChosen(info) => (
                    LobbyView {
                        state: State::CollectingPlayers,
                        content_info: Some(info),
                        ..self
                    },
                    seq![Effect::RefreshCandidates, Effect::RenderEditor],
                ),
                LobbyEvent::PlayerAddRequested(i) => if self.is_full() {
                    self.refuse(Notice::Full)
                } else if i >= self.players.len() {
                    self.refuse(Notice::Rejected)
                } else {
                    let c = self.players[i as int];
                    (
                        LobbyView {
                            active_players: self.active_players.push(c),
                            players: without_owner(self.players.remove(i as int), c.id),
                            ..self
                        },
                        seq![Effect::RefreshCandidates, Effect::RenderEditor],
                    )
                },
                LobbyEvent::PlayerRemoveRequested(i) => if i >= self.active_players.len() {
                    self.refuse(Notice::NotParticipant)
                } else {
                    (
                        LobbyView { active_players: self.active_players.remove(i as int), ..self },
                        seq![Effect::RefreshCandidates, Effect::RenderEditor],
                    )
                },
                LobbyEvent::PublishPrivate => self.published(false),
                LobbyEvent::PublishPublic => self.published(true),
                LobbyEvent::Close => (
                    LobbyView {
                        active: false,
                        timer: TimerController { live: None, reminder_sent: false, ..self.timer },
                        ..self
                    },
                    seq![Effect::CancelTimer, Effect::Deregister],
                ),
                LobbyEvent::JoinRequested(user) => if self.is_full() {
                    self.refuse(Notice::Full)
                } else if owner_in(self.active_players, user) {
                    self.refuse(Notice::AlreadyJoined)
                } else {
                    (self, seq![Effect::OfferCharacters(user)])
                },
                LobbyEvent::ExternalJoin(c) => self.joined(c),
                LobbyEvent::ExternalLeave(user) => self.left(user),
                LobbyEvent::ScheduleChanged(t) => if self.timer.generation == u64::MAX {
                    self.refuse(Notice::Rejected)
                } else {
                    let timer = self.timer.installed(t, REMINDER_LEAD_SECS, GRACE_PERIOD_SECS);
                    (
                        LobbyView { lobby_time: Some(t), timer, ..self },
                        seq![
                            Effect::CancelTimer,
                            Effect::InstallTimer(timer.live.unwrap()),
                            Effect::Render,
                            Effect::NotifyRescheduled(t),
                        ],
                    )
                },
                LobbyEvent::ReminderDue(g) => if self.timer.accepts_reminder(g) {
                    (
                        LobbyView { timer: TimerController { reminder_sent: true, ..self.timer }, ..self },
                        seq![Effect::NotifyReminder],
                    )
                } else {
                    (self, Seq::empty())
                },
                LobbyEvent::ExpireDue(g) => if self.timer.accepts_expiry(g) {
                    (
                        LobbyView {
                            active: false,
                            timer: TimerController { live: None, reminder_sent: false, ..self.timer },
                            ..self
                        },
                        seq![Effect::MarkInactive, Effect::Deregister],
                    )
                } else {
                    (self, Seq::empty())
                },
            }
        }
    }
}

/// Position of a workflow state in the formation order; the three
/// finalized states share the last position.
pub open spec fn stage(s: State) -> nat {
    match s {
        State::ContentSelection => 0,
        State::FirstPrompt => 1,
        State::CollectingPlayers => 2,
        _ => 3,
    }
}

/// The workflow state after an event that applies in state `s`.
pub open spec fn successor(s: State, e: LobbyEvent) -> State {
    match e {
        LobbyEvent::ContentChosen(_) => State::FirstPrompt,
        LobbyEvent::ContentInfoChosen(_) => State::CollectingPlayers,
        LobbyEvent::PublishPrivate => State::PrivateFinalized,
        LobbyEvent::PublishPublic => State::PublicFinalized,
        _ => s,
    }
}

/// Transitions follow the workflow table: an event that does not apply in
/// the current state, or that reaches a closed lobby, changes nothing and
/// yields a single notice; one that applies moves the workflow state to its
/// successor, which never lies earlier in the formation order; and only
/// `Close` and `ExpireDue` close a lobby.
pub proof fn lemma_transitions_follow_table(v: LobbyView, e: LobbyEvent)
    ensures
        !v.active ==> v.next(e) == v.refuse(Notice::Closed),
        v.active && !v.accepts(e) ==> v.next(e) == v.refuse(Notice::Rejected),
        v.active && v.accepts(e) ==> v.next(e).0.state == successor(v.state, e),
        stage(v.next(e).0.state) >= stage(v.state),
        v.active && !v.next(e).0.active ==> (e is Close || e is ExpireDue),
        v.next(e).0.id == v.id,
{
}

/// The lobby after the events `es`, in order.
pub open spec fn run(v: LobbyView, es: Seq<LobbyEvent>) -> LobbyView
    decreases es.len(),
{
    if es.len() == 0 {
        v
    } else {
        run(v, es.drop_last()).next(es.last()).0
    }
}

/// A request to add or remove a roster member.
pub open spec fn is_roster_request(e: LobbyEvent) -> bool {
    e is PlayerAddRequested || e is PlayerRemoveRequested
}

/// One add or remove request keeps the lobby well formed.
pub proof fn lemma_roster_request_keeps_wf(v: LobbyView, e: LobbyEvent)
    requires
        v.wf(),
        is_roster_request(e),
    ensures
        v.next(e).0.wf(),
{
    if v.active && v.accepts(e) {
        match e {
            LobbyEvent::PlayerAddRequested(i) => {
                if !v.is_full() && i < v.players.len() {
                    let c = v.players[i as int];
                    assert(is_eligible(c, v.min_level(), v.active_players));
                    lemma_push_keeps_distinct(v.active_players, c);
                    lemma_eligible_after_drop(v.players, v.min_level(), v.active_players, i as int);
                    lemma_eligible_after_join(v.players.remove(i as int), v.min_level(), v.active_players, c);
                }
            },
            LobbyEvent::PlayerRemoveRequested(i) => {
                if i < v.active_players.len() {
                    lemma_remove_keeps_distinct(v.active_players, i as int);
                    lemma_eligible_after_leave(v.players, v.min_level(), v.active_players, i as int);
                }
            },
            _ => {},
        }
    }
}

/// Whatever sequence of add and remove requests a lobby receives, its
/// roster never holds more members than the instance has slots, and no user
/// holds two of them.
pub proof fn lemma_roster_requests_keep_bounds(v: LobbyView, es: Seq<LobbyEvent>)
    requires
        v.wf(),
        forall|k: int| 0 <= k < es.len() ==> is_roster_request(#[trigger] es[k]),
    ensures
        run(v, es).wf(),
        run(v, es).active_players.len() <= run(v, es).capacity(),
        distinct_owners(run(v, es).active_players),
    decreases es.len(),
{
    if es.len() > 0 {
        lemma_roster_requests_keep_bounds(v, es.drop_last());
        assert(is_roster_request(es[es.len() - 1]));
        lemma_roster_request_keeps_wf(run(v, es.drop_last()), es.last());
    }
}

/// The events that reschedule a lobby to each time of `ts`, in order.
pub open spec fn reschedules(ts: Seq<i64>) -> Seq<LobbyEvent> {
    Seq::new(ts.len(), |k: int| LobbyEvent::ScheduleChanged(ts[k]))
}

/// Rescheduling a published lobby any number of times leaves it with the
/// last time as its schedule and with the timer obtained by installing one
/// chain per time, in order: every earlier chain was replaced (see
/// `lemma_replaced_schedule_single_chain`).
pub proof fn lemma_reschedules_replace_chain(v: LobbyView, ts: Seq<i64>)
    requires
        v.active,
        is_finalized(v.state),
        v.timer.generation + ts.len() <= u64::MAX,
    ensures
        run(v, reschedules(ts)).timer == install_all(v.timer, ts, REMINDER_LEAD_SECS, GRACE_PERIOD_SECS),
        run(v, reschedules(ts)).active,
        run(v, reschedules(ts)).state == v.state,
        ts.len() > 0 ==> run(v, reschedules(ts)).lobby_time == Some(ts.last()),
        run(v, reschedules(ts)).active_players == v.active_players,
    decreases ts.len(),
{
    if ts.len() > 0 {
        assert(reschedules(ts).drop_last() =~= reschedules(ts.drop_last()));
        lemma_reschedules_replace_chain(v, ts.drop_last());
        let w = run(v, reschedules(ts.drop_last()));
        lemma_install_all_generation(v.timer, ts.drop_last());
        assert(reschedules(ts).last() == LobbyEvent::ScheduleChanged(ts.last()));
        assert(w.timer.generation < u64::MAX);
    }
}

/// The effects of a refused event.
fn refuse(n: Notice) -> (fx: Vec<Effect>)
    ensures
        fx@ == seq![Effect::Inform(n)],
{
    let mut fx: Vec<Effect> = Vec::new();
    fx.push(Effect::Inform(n));
    fx
}

impl LobbyContext {
    /// A lobby at the start of formation.
    pub fn new(
        id: String,
        guild_id: u64,
        channel_id: u64,
        message_id: u64,
        lobby_master: u64,
        lobby_time: Option<i64>,
    ) -> (r: LobbyContext)
        ensures
            r@ == (LobbyView {
                id: id@,
                guild_id,
                channel_id,
                message_id,
                lobby_master,
                state: State::ContentSelection,
                content: None,
                content_info: None,
                lobby_time,
                timer: TimerController { generation: 0, live: None, reminder_sent: false },
                players: Seq::empty(),
                active_players: Seq::empty(),
                active: true,
            }),
            r@.wf(),
    {
        LobbyContext {
            id,
            guild_id,
            channel_id,
            message_id,
            lobby_master,
            state: State::ContentSelection,
            content: None,
            content_info: None,
            lobby_time,
            timer: TimerController::new(),
            players: Vec::new(),
            active_players: Vec::new(),
            active: true,
        }
    }

    /// Number of roster slots (zero until the instance is chosen).
    pub fn capacity(&self) -> (r: usize)
        ensures
            r == self@.capacity(),
    {
        match &self.content_info {
            Some(info) => info.content_size,
            None => 0,
        }
    }

    /// Minimum item level of the chosen instance.
    pub fn min_level(&self) -> (r: i32)
        ensures
            r == self@.min_level(),
    {
        match &self.content_info {
            Some(info) => info.ilvl_req,
            None => i32::MAX,
        }
    }

    /// Whether every roster slot is taken.
    pub fn is_full(&self) -> (r: bool)
        ensures
            r == self@.is_full(),
    {
        self.active_players.len() >= self.capacity()
    }

    /// Whether user `id` has a character in the roster.
    pub fn is_active_player(&self, id: u64) -> (r: bool)
        ensures
            r == owner_in(self@.active_players, id),
    {
        owner_present(&self.active_players, id)
    }

    /// The chosen category.
    pub fn lobby_content(&self) -> (r: LobbyContent)
        requires
            self.content.is_some(),
        ensures
            self.content == Some(r),
    {
        self.content.unwrap()
    }

    /// The chosen instance.
    pub fn content_info(&self) -> (r: &ContentInfo)
        requires
            self.content_info.is_some(),
        ensures
            self.content_info == Some(*r),
    {
        self.content_info.as_ref().unwrap()
    }

    fn accepts(&self, e: &LobbyEvent) -> (r: bool)
        ensures
            r == self@.accepts(*e),
    {
        let finalized = self.state == State::PrivateFinalized || self.state == State::PublicFinalized
            || self.state == State::Reconstructed;
        match e {
            LobbyEvent::ContentChosen(_) => self.state == State::ContentSelection,
            LobbyEvent::ContentInfoChosen(_) => self.state == State::FirstPrompt,
            LobbyEvent::PlayerAddRequested(_) => self.state == State::CollectingPlayers,
            LobbyEvent::PlayerRemoveRequested(_) => self.state == State::CollectingPlayers,
            LobbyEvent::PublishPrivate => self.state == State::CollectingPlayers,
            LobbyEvent::PublishPublic => self.state == State::CollectingPlayers,
            LobbyEvent::Close => true,
            LobbyEvent::ExpireDue(_) => true,
            _ => finalized,
        }
    }

    /// Moves the candidate at `idx` into the next free roster slot and drops
    /// the other candidates of the same user. Does nothing when the roster is
    /// full or there is no such candidate; returns whether it moved one.
    pub fn add_active_player(&mut self, idx: usize) -> (added: bool)
        requires
            old(self)@.wf(),
        ensures
            final(self)@.wf(),
            added == (!old(self)@.is_full() && idx < old(self)@.players.len()),
            added ==> final(self)@ == (LobbyView {
                active_players: old(self)@.active_players.push(old(self)@.players[idx as int]),
                players: without_owner(
                    old(self)@.players.remove(idx as int),
                    old(self)@.players[idx as int].id,
                ),
                ..old(self)@
            }),
            !added ==> final(self)@ == old(self)@,
    {
        if self.is_full() || idx >= self.players.len() {
            return false;
        }
        let ghost pre = self@;
        let c = self.players.remove(idx);
        let owner = c.id;
        proof {
            assert(is_eligible(c, pre.min_level(), pre.active_players));
            lemma_push_keeps_distinct(pre.active_players, c);
            lemma_eligible_after_drop(pre.players, pre.min_level(), pre.active_players, idx as int);
            lemma_eligible_after_join(pre.players.remove(idx as int), pre.min_level(), pre.active_players, c);
        }
        self.players = filter_out_owner(&self.players, owner);
        self.active_players.push(c);
        true
    }

    /// Puts `player` into the next free roster slot, unless the roster is
    /// full or the player's user is already in it; the other candidates of
    /// that user are dropped. Returns whether it was added.
    pub fn add_active_player_by_model(&mut self, player: Character) -> (added: bool)
        requires
            old(self)@.wf(),
        ensures
            final(self)@.wf(),
            added == (!old(self)@.is_full() && !owner_in(old(self)@.active_players, player.id)),
            added ==> final(self)@ == (LobbyView {
                active_players: old(self)@.active_players.push(player),
                players: without_owner(old(self)@.players, player.id),
                ..old(self)@
            }),
            !added ==> final(self)@ == old(self)@,
    {
        if self.is_full() || self.is_active_player(player.id) {
            return false;
        }
        let ghost pre = self@;
        proof {
            lemma_push_keeps_distinct(pre.active_players, player);
            lemma_eligible_after_join(pre.players, pre.min_level(), pre.active_players, player);
        }
        self.players = filter_out_owner(&self.players, player.id);
        self.active_players.push(player);
        true
    }

    /// Removes the roster member at `idx`, freeing its slot; the members
    /// after it move up one slot. Returns the removed character.
    pub fn remove_active_player(&mut self, idx: usize) -> (removed: Option<Character>)
        requires
            old(self)@.wf(),
        ensures
            final(self)@.wf(),
            removed.is_some() == (idx < old(self)@.active_players.len()),
            removed.is_some() ==> removed == Some(old(self)@.active_players[idx as int])
                && final(self)@ == (LobbyView {
                active_players: old(self)@.active_players.remove(idx as int),
                ..old(self)@
            }),
            removed.is_none() ==> final(self)@ == old(self)@,
    {
        if idx >= self.active_players.len() {
            return None;
        }
        let ghost pre = self@;
        proof {
            lemma_remove_keeps_distinct(pre.active_players, idx as int);
            lemma_eligible_after_leave(pre.players, pre.min_level(), pre.active_players, idx as int);
        }
        let c = self.active_players.remove(idx);
        Some(c)
    }

    /// Replaces the candidate roster with the members of `pool` that meet the
    /// instance's minimum item level and whose user is not in the roster.
    /// Only while players are being collected; otherwise nothing changes.
    pub fn set_candidates(&mut self, pool: Vec<Character>)
        requires
            old(self)@.wf(),
        ensures
            final(self)@.wf(),
            old(self)@.active && old(self)@.state == State::CollectingPlayers ==> final(self)@ == (
            LobbyView {
                players: eligible(pool@, old(self)@.min_level(), old(self)@.active_players),
                ..old(self)@
            }),
            !(old(self)@.active && old(self)@.state == State::CollectingPlayers) ==> final(self)@
                == old(self)@,
    {
        if !self.active || self.state != State::CollectingPlayers {
            return;
        }
        let min_level = self.min_level();
        self.players = filter_eligible(&pool, min_level, &self.active_players);
        proof {
            lemma_eligible_members(pool@, min_level, self@.active_players);
        }
    }
}

impl LobbyContext {
    /// Ends formation; installs the timer chain when a schedule is set.
    fn publish(&mut self, public: bool) -> (fx: Vec<Effect>)
        requires
            old(self)@.wf(),
            old(self)@.active,
            old(self)@.state == State::CollectingPlayers,
        ensures
            (final(self)@, fx@) == old(self)@.published(public),
            final(self)@.wf(),
    {
        self.state = if public { State::PublicFinalized } else { State::PrivateFinalized };
        self.players = Vec::new();
        let mut fx: Vec<Effect> = Vec::new();
        fx.push(Effect::SaveSession);
        match self.lobby_time {
            Some(t) => {
                if self.timer.can_install() {
                    let plan = self.timer.install(t, REMINDER_LEAD_SECS, GRACE_PERIOD_SECS);
                    fx.push(Effect::InstallTimer(plan));
                }
            },
            None => {},
        }
        fx.push(Effect::RenderPublished(public));
        fx
    }

    /// Processes one event: moves the lobby along the workflow and returns
    /// the effects the host performs, in order. An event that does not apply
    /// changes nothing and yields a notice; a report from a replaced timer
    /// chain changes nothing and yields no effect.
    pub fn handle(&mut self, event: LobbyEvent) -> (fx: Vec<Effect>)
        requires
            old(self)@.wf(),
        ensures
            final(self)@.wf(),
            (final(self)@, fx@) == old(self)@.next(event),
    {
        if !self.active {
            return refuse(Notice::Closed);
        }
        if !self.accepts(&event) {
            return refuse(Notice::Rejected);
        }
        match event {
            LobbyEvent::ContentChosen(c) => {
                self.state = State::FirstPrompt;
                self.content = Some(c);
                let mut fx: Vec<Effect> = Vec::new();
                fx.push(Effect::ShowInstancePicker(c));
                fx
            },
            LobbyEvent::ContentInfoChosen(info) => {
                self.state = State::CollectingPlayers;
                self.content_info = Some(info);
                let mut fx: Vec<Effect> = Vec::new();
                fx.push(Effect::RefreshCandidates);
                fx.push(Effect::RenderEditor);
                fx
            },
            LobbyEvent::PlayerAddRequested(i) => {
                if self.is_full() {
                    return refuse(Notice::Full);
                }
                if !self.add_active_player(i) {
                    return refuse(Notice::Rejected);
                }
                let mut fx: Vec<Effect> = Vec::new();
                fx.push(Effect::RefreshCandidates);
                fx.push(Effect::RenderEditor);
                fx
            },
            LobbyEvent::PlayerRemoveRequested(i) => {
                match self.remove_active_player(i) {
                    Some(_) => {
                        let mut fx: Vec<Effect> = Vec::new();
                        fx.push(Effect::RefreshCandidates);
                        fx.push(Effect::RenderEditor);
                        fx
                    },
                    None => refuse(Notice::NotParticipant),
                }
            },
            LobbyEvent::PublishPrivate => self.publish(false),
            LobbyEvent::PublishPublic => self.publish(true),
            LobbyEvent::Close => {
                self.timer.cancel();
                self.active = false;
                let mut fx: Vec<Effect> = Vec::new();
                fx.push(Effect::CancelTimer);
                fx.push(Effect::Deregister);
                fx
            },
            LobbyEvent::JoinRequested(user) => {
                if self.is_full() {
                    return refuse(Notice::Full);
                }
                if self.is_active_player(user) {
                    return refuse(Notice::AlreadyJoined);
                }
                let mut fx: Vec<Effect> = Vec::new();
                fx.push(Effect::OfferCharacters(user));
                fx
            },
            LobbyEvent::ExternalJoin(c) => self.join(c),
            LobbyEvent::ExternalLeave(user) => self.leave(user),
            LobbyEvent::ScheduleChanged(t) => {
                if !self.timer.can_install() {
                    return refuse(Notice::Rejected);
                }
                let plan = self.timer.install(t, REMINDER_LEAD_SECS, GRACE_PERIOD_SECS);
                self.lobby_time = Some(t);
                let mut fx: Vec<Effect> = Vec::new();
                fx.push(Effect::CancelTimer);
                fx.push(Effect::InstallTimer(plan));
                fx.push(Effect::Render);
                fx.push(Effect::NotifyRescheduled(t));
                fx
            },
            LobbyEvent::ReminderDue(g) => {
                let mut fx: Vec<Effect> = Vec::new();
                if self.timer.take_reminder(g) {
                    fx.push(Effect::NotifyReminder);
                }
                fx
            },
            LobbyEvent::ExpireDue(g) => {
                let mut fx: Vec<Effect> = Vec::new();
                if self.timer.take_expiry(g) {
                    self.active = false;
                    fx.push(Effect::MarkInactive);
                    fx.push(Effect::Deregister);
                }
                fx
            },
        }
    }

    fn join(&mut self, c: Character) -> (fx: Vec<Effect>)
        requires
            old(self)@.wf(),
            is_finalized(old(self)@.state),
        ensures
            final(self)@.wf(),
            (final(self)@, fx@) == old(self)@.joined(c),
    {
        if self.is_full() {
            return refuse(Notice::Full);
        }
        if self.is_active_player(c.id) {
            return refuse(Notice::AlreadyJoined);
        }
        let record = c.duplicate();
        assert(without_owner(self@.players, c.id) =~= self@.players);
        self.add_active_player_by_model(c);
        let mut fx: Vec<Effect> = Vec::new();
        fx.push(Effect::SaveJoin(record));
        fx.push(Effect::Render);
        fx
    }

    fn leave(&mut self, user: u64) -> (fx: Vec<Effect>)
        requires
            old(self)@.wf(),
            is_finalized(old(self)@.state),
        ensures
            final(self)@.wf(),
            (final(self)@, fx@) == old(self)@.left(user),
    {
        match owner_position(&self.active_players, user) {
            None => refuse(Notice::NotParticipant),
            Some(k) => {
                let ghost pre = self@;
                proof {
                    let kk = choose|m: int| 0 <= m < pre.active_players.len() && #[trigger] pre.active_players[m].id == user;
                    if kk != k as int {
                        assert(pre.active_players[kk].id == pre.active_players[k as int].id);
                    }
                    assert(kk == k as int);
                }
                let removed = self.remove_active_player(k);
                let mut fx: Vec<Effect> = Vec::new();
                match removed {
                    Some(c) => {
                        fx.push(Effect::SaveRemoval(c));
                    },
                    None => {},
                }
                fx.push(Effect::Render);
                fx
            },
        }
    }
}

} // verus!
