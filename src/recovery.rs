//! Persisted lobby records and the start-up rules that rebuild live lobbies
//! from them.
use vstd::prelude::*;
use crate::character::Character;
use crate::content::{kind_of, ContentInfo, LobbyContent};
use crate::roster::owner_in;
use crate::schedule::now_secs;
use crate::session::{LobbyContext, LobbyView, State};
use crate::timer::{clamp_time, time_until, TimerController, GRACE_PERIOD_SECS, REMINDER_LEAD_SECS};

verus! {

/// The stored snapshot of a lobby.
#[derive(Clone, Debug)]
pub struct LobbyRecord {
    pub lobby_id: String,
    pub guild_id: u64,
    pub channel_id: u64,
    pub message_id: u64,
    pub lobby_master: u64,
    /// Name of the content instance.
    pub content: String,
    /// Scheduled Unix time (seconds), if set.
    pub scheduled: Option<i64>,
    pub active: bool,
}

/// What start-up does with a stored lobby.
pub enum Recovery {
    /// The lobby is over: mark it inactive and start no actor.
    Expired,
    /// The rebuilt lobby: register it and start its actor (and its timer
    /// chain, when `timer.live` holds one).
    Restored(LobbyContext),
}

/// The characters of `roster` that fit, in order: each one is taken while
/// slots remain, unless its user already has a character taken.
pub open spec fn admitted(roster: Seq<Character>, capacity: nat) -> Seq<Character>
    decreases roster.len(),
{
    if roster.len() == 0 {
        Seq::empty()
    } else {
        let a = admitted(roster.drop_last(), capacity);
        if a.len() < capacity && !owner_in(a, roster.last().id) {
            a.push(roster.last())
        } else {
            a
        }
    }
}

/// Whether the stored lobby is over when the clock reads `now`.
pub open spec fn is_over(record: LobbyRecord, now: i64) -> bool {
    !record.active || (record.scheduled matches Some(t) && t <= now)
}

/// The timer of a rebuilt lobby: one chain for its schedule, if it has one.
pub open spec fn recovered_timer(scheduled: Option<i64>) -> TimerController {
    let none = TimerController { generation: 0, live: None, reminder_sent: false };
    match scheduled {
        Some(t) => none.installed(t, REMINDER_LEAD_SECS, GRACE_PERIOD_SECS),
        None => none,
    }
}

/// The lobby rebuilt from `record`, its instance `info` and its stored roster.
pub open spec fn recovered_view(record: LobbyRecord, info: ContentInfo, roster: Seq<Character>) -> LobbyView {
    LobbyView {
        id: record.lobby_id@,
        guild_id: record.guild_id,
        channel_id: record.channel_id,
        message_id: record.message_id,
        lobby_master: record.lobby_master,
        state: State::Reconstructed,
        content: kind_of(info.content_type@),
        content_info: Some(info),
        lobby_time: record.scheduled,
        timer: recovered_timer(record.scheduled),
        players: Seq::empty(),
        active_players: admitted(roster, info.content_size as nat),
        active: true,
    }
}

/// Rebuilds a stored lobby as of `now`. A lobby that is inactive, or whose
/// schedule is not after `now`, is over. Any other is rebuilt in state
/// `Reconstructed` with its roster, and, when it has a schedule, a timer chain
/// whose reminder and expiry times are computed afresh from that schedule.
pub fn recover_lobby_at(record: LobbyRecord, info: ContentInfo, roster: &Vec<Character>, now: i64) -> (r: Recovery)
    ensures
        r is Expired <==> is_over(record, now),
        r matches Recovery::Restored(ctx) ==> ctx@ == recovered_view(record, info, roster@)
            && ctx@.wf(),
{
    if !record.active {
        return Recovery::Expired;
    }
    match record.scheduled {
        Some(t) => {
            if t <= now {
                return Recovery::Expired;
            }
        },
        None => {},
    }
    let ghost rec = record;
    let ghost inf = info;
    let content = LobbyContent::from_kind(info.content_type.as_str());
    let mut timer = TimerController::new();
    match record.scheduled {
        Some(t) => {
            timer.install(t, REMINDER_LEAD_SECS, GRACE_PERIOD_SECS);
        },
        None => {},
    }
    let mut ctx = LobbyContext {
        id: record.lobby_id,
        guild_id: record.guild_id,
        channel_id: record.channel_id,
        message_id: record.message_id,
        lobby_master: record.lobby_master,
        state: State::Reconstructed,
        content,
        content_info: Some(info),
        lobby_time: record.scheduled,
        timer,
        players: Vec::new(),
        active_players: Vec::new(),
        active: true,
    };
    assert(ctx@.active_players =~= admitted(roster@.take(0), inf.content_size as nat));
    let mut i: usize = 0;
    while i < roster.len()
        invariant
            i <= roster@.len(),
            ctx@.wf(),
            ctx@ == (LobbyView {
                active_players: admitted(roster@.take(i as int), inf.content_size as nat),
                ..recovered_view(rec, inf, roster@)
            }),
        decreases roster@.len() - i,
    {
        assert(roster@.take(i + 1).drop_last() =~= roster@.take(i as int));
        assert(roster@.take(i + 1).last() == roster@[i as int]);
        ctx.add_active_player_by_model(roster[i].duplicate());
        i = i + 1;
    }
    assert(roster@.take(i as int) =~= roster@);
    Recovery::Restored(ctx)
}

/// Rebuilds a stored lobby as of the current time (see `recover_lobby_at`).
/// A lobby without a schedule is always rebuilt; a rebuilt lobby is in state
/// `Reconstructed`.
pub fn recover_lobby(record: LobbyRecord, info: ContentInfo, roster: &Vec<Character>) -> (r: Recovery)
    ensures
        !record.active ==> r is Expired,
        record.active && record.scheduled is None ==> r is Restored,
        r matches Recovery::Expired ==> exists|now: i64| #[trigger] is_over(record, now),
        r matches Recovery::Restored(ctx) ==> ctx@ == recovered_view(record, info, roster@)
            && ctx@.wf(),
{
    let now = now_secs();
    let ghost rec = record;
    let r = recover_lobby_at(record, info, roster, now);
    assert(r is Expired ==> is_over(rec, now));
    r
}

/// A lobby rebuilt at `now` with a schedule `t` still ahead gets a chain
/// whose reminder is due `t - lead` and whose expiry is due `t + grace`, both
/// measured against `now`: the wait before the reminder is what remains of
/// `t - lead - now` (nothing, when the reminder time has already passed, so
/// the reminder fires at once).
pub proof fn lemma_recovered_reminder(record: LobbyRecord, info: ContentInfo, roster: Seq<Character>, now: i64)
    requires
        !is_over(record, now),
        record.scheduled is Some,
    ensures
        ({
            let t = record.scheduled->Some_0;
            let plan = recovered_view(record, info, roster).timer.live->Some_0;
            &&& recovered_view(record, info, roster).timer.live is Some
            &&& plan.reminder_at == clamp_time(t - REMINDER_LEAD_SECS)
            &&& plan.expire_at == clamp_time(t + GRACE_PERIOD_SECS)
            &&& t - REMINDER_LEAD_SECS > now ==> time_until(now as int, plan.reminder_at as int)
                == t - REMINDER_LEAD_SECS - now
            &&& t - REMINDER_LEAD_SECS <= now ==> time_until(now as int, plan.reminder_at as int) == 0
        }),
{
}

impl LobbyContext {
    /// The stored snapshot of the lobby.
    pub fn to_record(&self) -> (r: LobbyRecord)
        requires
            self.content_info.is_some(),
        ensures
            r.lobby_id@ == self.id@,
            r.guild_id == self.guild_id,
            r.channel_id == self.channel_id,
            r.message_id == self.message_id,
            r.lobby_master == self.lobby_master,
            r.content@ == self.content_info->Some_0.name@,
            r.scheduled == self.lobby_time,
            r.active == self.active,
    {
        LobbyRecord {
            lobby_id: self.id.clone(),
            guild_id: self.guild_id,
            channel_id: self.channel_id,
            message_id: self.message_id,
            lobby_master: self.lobby_master,
            content: self.content_info().name.clone(),
            scheduled: self.lobby_time,
            active: self.active,
        }
    }
}

} // verus!
