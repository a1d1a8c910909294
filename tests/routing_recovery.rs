use ark_guild_bot::character::{construct_character_list, Character};
use ark_guild_bot::content::{ContentInfo, LobbyContent};
use ark_guild_bot::recovery::{recover_lobby, recover_lobby_at, LobbyRecord, Recovery};
use ark_guild_bot::registry::{Dispatch, LobbyRegistry, RegistryError};
use ark_guild_bot::router::{
    kind_of_suffix, lobby_event, parse_position, route, split_interaction_id, InteractionKind, RouteError,
    Routed,
};
use ark_guild_bot::schedule::{check_schedule, requested_schedule, wide_zone, ScheduleError};
use ark_guild_bot::session::{LobbyContext, LobbyEvent, State};
use ark_guild_bot::target::{check_target, lobby_key, TargetError};
use ark_guild_bot::timer::{TimerController, GRACE_PERIOD_SECS, REMINDER_LEAD_SECS};

const ID: &str = "67e55044-10b1-426f-9247-bb680e5fe0c8";

fn info(size: usize) -> ContentInfo {
    ContentInfo {
        name: "Valtan".to_string(),
        content_type: "abyss-raid".to_string(),
        tier: 3,
        ilvl_req: 1415,
        content_size: size,
        image: String::new(),
        banner: String::new(),
        guide: String::new(),
        gameplay_video: String::new(),
        introduction: String::new(),
    }
}

fn ch(owner: u64, name: &str) -> Character {
    Character { id: owner, guild_id: 1, name: name.to_string(), class: "Paladin".to_string(), item_level: 1415 }
}

fn record(scheduled: Option<i64>, active: bool) -> LobbyRecord {
    LobbyRecord {
        lobby_id: ID.to_string(),
        guild_id: 1,
        channel_id: 2,
        message_id: 3,
        lobby_master: 4,
        content: "Valtan".to_string(),
        scheduled,
        active,
    }
}

#[test]
fn recovery_thirty_minutes_ahead() {
    let now = 1_700_000_000i64;
    let roster = vec![ch(1, "A"), ch(2, "B")];
    match recover_lobby_at(record(Some(now + 1800), true), info(4), &roster, now) {
        Recovery::Restored(ctx) => {
            assert_eq!(ctx.state, State::Reconstructed);
            assert_eq!(ctx.content, Some(LobbyContent::AbyssRaid));
            assert_eq!(ctx.active_players.len(), 2);
            let plan = ctx.timer.live.unwrap();
            assert_eq!(plan.reminder_at, now + 1800 - 600);
            assert_eq!(plan.reminder_delay(now), 1200);
            assert_eq!(plan.expire_delay(now), 1800);
        }
        Recovery::Expired => panic!("lobby should be restored"),
    }
}

#[test]
fn recovery_inside_reminder_window_fires_at_once() {
    let now = 1_700_000_000i64;
    match recover_lobby_at(record(Some(now + 300), true), info(4), &vec![], now) {
        Recovery::Restored(ctx) => {
            let plan = ctx.timer.live.unwrap();
            assert_eq!(plan.reminder_delay(now), 0);
            assert_eq!(plan.expire_delay(now), 300);
        }
        Recovery::Expired => panic!("lobby should be restored"),
    }
}

#[test]
fn recovery_of_past_lobby_expires() {
    let now = 1_700_000_000i64;
    assert!(matches!(recover_lobby_at(record(Some(now - 1), true), info(4), &vec![], now), Recovery::Expired));
    assert!(matches!(recover_lobby_at(record(Some(now), true), info(4), &vec![], now), Recovery::Expired));
    assert!(matches!(recover_lobby_at(record(None, false), info(4), &vec![], now), Recovery::Expired));
    assert!(matches!(recover_lobby(record(Some(1_000), true), info(4), &vec![]), Recovery::Expired));
}

#[test]
fn recovery_without_schedule_keeps_roster_within_capacity() {
    let roster = vec![ch(1, "A"), ch(1, "A2"), ch(2, "B"), ch(3, "C")];
    match recover_lobby(record(None, true), info(2), &roster) {
        Recovery::Restored(ctx) => {
            assert!(ctx.timer.live.is_none());
            let names: Vec<&str> = ctx.active_players.iter().map(|c| c.name.as_str()).collect();
            assert_eq!(names, vec!["A", "B"]);
            let rec = ctx.to_record();
            assert_eq!(rec.lobby_id, ID);
            assert_eq!(rec.content, "Valtan");
            assert!(rec.active);
        }
        Recovery::Expired => panic!("lobby should be restored"),
    }
}

#[test]
fn unregistered_lobby_is_stale() {
    let registry = LobbyRegistry::new();
    assert_eq!(registry.dispatch(ID, LobbyEvent::Close), Dispatch::StaleLobby);
    assert!(!registry.is_registered(ID));
}

#[test]
fn registry_register_lookup_deregister() {
    let mut registry = LobbyRegistry::new();
    let (tx, mut rx) = tokio::sync::mpsc::unbounded_channel();
    assert_eq!(registry.register(ID.to_string(), tx.clone()), Ok(()));
    assert_eq!(registry.register(ID.to_string(), tx), Err(RegistryError::AlreadyRegistered));
    assert!(registry.lookup(ID).is_some());
    assert!(registry.lookup("other").is_none());
    assert_eq!(registry.dispatch(ID, LobbyEvent::ReminderDue(4)), Dispatch::Delivered);
    assert!(matches!(rx.try_recv(), Ok(LobbyEvent::ReminderDue(4))));
    drop(rx);
    assert_eq!(registry.dispatch(ID, LobbyEvent::Close), Dispatch::StaleLobby);
    registry.deregister(ID);
    registry.deregister(ID);
    assert!(!registry.is_registered(ID));
    assert_eq!(registry.dispatch(ID, LobbyEvent::Close), Dispatch::StaleLobby);
}

#[test]
fn interaction_ids_are_split() {
    let joined = format!("{ID}lobby-join");
    match split_interaction_id(&joined) {
        Ok((id, kind)) => {
            assert_eq!(id, ID);
            assert_eq!(kind, InteractionKind::LobbyJoin);
        }
        Err(e) => panic!("{:?}", e),
    }
    let leave = format!("{ID}lobby-leave");
    assert!(matches!(split_interaction_id(&leave), Ok((_, InteractionKind::LobbyLeave))));
    let pick = format!("{ID}player-join");
    assert!(matches!(split_interaction_id(&pick), Ok((_, InteractionKind::PlayerJoin))));
    let other = format!("{ID}delete-lobby");
    assert_eq!(split_interaction_id(&other), Err(RouteError::Untracked));
    assert!(matches!(split_interaction_id(ID), Ok((_, InteractionKind::InstancePicked))));
    let raid = format!("{ID}abyss-raid");
    assert!(matches!(
        split_interaction_id(&raid),
        Ok((_, InteractionKind::Content(LobbyContent::AbyssRaid)))
    ));
    for (suffix, kind) in [
        ("add", InteractionKind::AddPlayer),
        ("remove", InteractionKind::RemovePlayer),
        ("post-lobby", InteractionKind::PostLobby),
        ("open-lobby", InteractionKind::OpenLobby),
        ("close-lobby", InteractionKind::CloseLobby),
    ] {
        let id = format!("{ID}{suffix}");
        assert_eq!(split_interaction_id(&id).map(|p| p.1), Ok(kind));
    }
    assert_eq!(split_interaction_id("short-id"), Err(RouteError::Unparseable));
    assert_eq!(kind_of_suffix("lobby-joi"), None);
}

#[test]
fn schedule_window() {
    let now = 1_000_000i64;
    assert_eq!(check_schedule(now + 900, now), Err(ScheduleError::TooSoon));
    assert_eq!(check_schedule(now + 901, now), Ok(now + 901));
    assert_eq!(check_schedule(now + 1_209_599, now), Ok(now + 1_209_599));
    assert_eq!(check_schedule(now + 1_209_600, now), Err(ScheduleError::TooFar));
    assert_eq!(check_schedule(i64::MIN, i64::MAX), Err(ScheduleError::TooSoon));
    assert_eq!(check_schedule(i64::MAX, i64::MIN), Err(ScheduleError::TooFar));
}

#[test]
fn requested_schedule_reads_text() {
    assert_eq!(requested_schedule("not a time at all", 0), Err(ScheduleError::Unreadable));
    assert_eq!(requested_schedule("2001-05-02 15:51", 2), Err(ScheduleError::TooSoon));
    assert_eq!(requested_schedule("2999-05-02 15:51", -5), Err(ScheduleError::TooFar));
}

#[test]
fn timer_controller_replacement() {
    let mut t = TimerController::new();
    let first = t.install(5_000, REMINDER_LEAD_SECS, GRACE_PERIOD_SECS);
    let second = t.install(9_000, REMINDER_LEAD_SECS, GRACE_PERIOD_SECS);
    assert_eq!(first.generation, 1);
    assert_eq!(second.generation, 2);
    assert_eq!(second.reminder_at, 8_400);
    assert_eq!(second.expire_at, 9_000);
    assert!(!t.take_reminder(1));
    assert!(t.take_reminder(2));
    assert!(!t.take_reminder(2));
    assert!(!t.take_expiry(1));
    assert!(t.take_expiry(2));
    assert!(!t.take_expiry(2));
    let mut u = TimerController::new();
    let plan = u.install(i64::MIN + 5, 600, 0);
    assert_eq!(plan.reminder_at, i64::MIN);
    u.cancel();
    assert!(u.live.is_none());
    assert!(!u.take_expiry(1));
}

#[test]
fn content_kinds_and_lists() {
    assert_eq!(LobbyContent::from_kind("guardian-raid"), Some(LobbyContent::GuardianRaid));
    assert_eq!(LobbyContent::from_kind("abyss-dungeon"), Some(LobbyContent::AbyssDungeon));
    assert_eq!(LobbyContent::from_kind("abyss-raid"), Some(LobbyContent::AbyssRaid));
    assert_eq!(LobbyContent::from_kind("Abyss Raid"), None);
    assert_eq!(LobbyContent::AbyssDungeon.label(), "Abyss Dungeon");
    assert_eq!(LobbyContent::GuardianRaid.kind(), "guardian-raid");
    let mut a = info(8);
    a.name = "Argos".to_string();
    let mut b = info(4);
    b.name = "Demon Beast Canyon".to_string();
    b.content_type = "abyss-dungeon".to_string();
    let catalog = vec![a, b, info(8)];
    assert_eq!(LobbyContent::AbyssRaid.get_content_list(&catalog), vec!["Argos", "Valtan"]);
    assert_eq!(LobbyContent::AbyssDungeon.get_content_list(&catalog), vec!["Demon Beast Canyon"]);
    assert!(LobbyContent::GuardianRaid.get_content_list(&catalog).is_empty());
}

#[test]
fn character_listing_layout() {
    let chars = vec![
        Character { id: 1, guild_id: 1, name: "Sorca".to_string(), class: "Sorceress".to_string(), item_level: 1460 },
        Character { id: 1, guild_id: 1, name: "Tiny".to_string(), class: "Bard".to_string(), item_level: -7 },
    ];
    let expected = format!(
        "```{:<15} {:<15}    {}\n{:-<15} {:-<15}    {:-<10}\n{:<15} {:<15} -> {:<5} ilvl \n{:<15} {:<15} -> {:<5} ilvl \n```",
        "Name", "Class", "Item Level", "", "", "", "Sorca", "Sorceress", 1460, "Tiny", "Bard", -7
    );
    assert_eq!(construct_character_list(&chars), expected);
    assert_eq!(
        construct_character_list(&vec![]),
        format!("```{:<15} {:<15}    {}\n{:-<15} {:-<15}    {:-<10}\n```", "Name", "Class", "Item Level", "", "", "")
    );
}

#[test]
fn lobby_ids_are_normalised() {
    assert_eq!(lobby_key("67E55044-10B1-426F-9247-BB680E5FE0C8"), Ok(ID.to_string()));
    assert_eq!(lobby_key("67e5504410b1426f9247bb680e5fe0c8"), Ok(ID.to_string()));
    assert_eq!(lobby_key("not-a-lobby"), Err(TargetError::InvalidId));
}

#[test]
fn command_targets_are_checked() {
    assert_eq!(check_target(&record(None, true), 1), Ok(()));
    assert_eq!(check_target(&record(None, true), 2), Err(TargetError::WrongGuild));
    assert_eq!(check_target(&record(None, false), 1), Err(TargetError::NotActive));
}

#[test]
fn new_lobby_starts_in_content_selection() {
    let ctx = LobbyContext::new(ID.to_string(), 1, 2, 3, 4, Some(77));
    assert_eq!(ctx.state, State::ContentSelection);
    assert!(ctx.active);
    assert_eq!(ctx.lobby_time, Some(77));
    assert_eq!(ctx.capacity(), 0);
}

#[test]
fn positions_are_read_in_decimal() {
    assert_eq!(parse_position("0"), Some(0));
    assert_eq!(parse_position("42"), Some(42));
    assert_eq!(parse_position("007"), Some(7));
    assert_eq!(parse_position(""), None);
    assert_eq!(parse_position("4a"), None);
    assert_eq!(parse_position("-1"), None);
    assert_eq!(parse_position(&usize::MAX.to_string()), Some(usize::MAX));
    assert_eq!(parse_position("99999999999999999999999"), None);
    assert_eq!(parse_position("99999999999999999999999x"), None);
}

#[test]
fn interactions_become_events() {
    assert!(matches!(
        lobby_event(InteractionKind::Content(LobbyContent::GuardianRaid), 1, None),
        Some(LobbyEvent::ContentChosen(LobbyContent::GuardianRaid))
    ));
    assert!(matches!(lobby_event(InteractionKind::AddPlayer, 1, Some("3")), Some(LobbyEvent::PlayerAddRequested(3))));
    assert!(matches!(lobby_event(InteractionKind::RemovePlayer, 1, Some("0")), Some(LobbyEvent::PlayerRemoveRequested(0))));
    assert!(lobby_event(InteractionKind::AddPlayer, 1, Some("x")).is_none());
    assert!(lobby_event(InteractionKind::RemovePlayer, 1, None).is_none());
    assert!(matches!(lobby_event(InteractionKind::PostLobby, 1, None), Some(LobbyEvent::PublishPrivate)));
    assert!(matches!(lobby_event(InteractionKind::OpenLobby, 1, None), Some(LobbyEvent::PublishPublic)));
    assert!(matches!(lobby_event(InteractionKind::CloseLobby, 1, None), Some(LobbyEvent::Close)));
    assert!(matches!(lobby_event(InteractionKind::LobbyJoin, 9, None), Some(LobbyEvent::JoinRequested(9))));
    assert!(matches!(lobby_event(InteractionKind::LobbyLeave, 9, None), Some(LobbyEvent::ExternalLeave(9))));
    assert!(lobby_event(InteractionKind::InstancePicked, 9, Some("Valtan")).is_none());
    assert!(lobby_event(InteractionKind::PlayerJoin, 9, Some("A")).is_none());
}

#[test]
fn router_reports_stale_lobby_for_unregistered_id() {
    let registry = LobbyRegistry::new();
    let leave = format!("{ID}lobby-leave");
    assert!(matches!(route(&registry, &leave, 5, None), Routed::StaleLobby));
    let add = format!("{ID}add");
    assert!(matches!(route(&registry, &add, 5, Some("1")), Routed::StaleLobby));
}

#[test]
fn router_outcomes() {
    let mut registry = LobbyRegistry::new();
    let (tx, mut rx) = tokio::sync::mpsc::unbounded_channel();
    registry.register(ID.to_string(), tx).unwrap();
    let join = format!("{ID}lobby-join");
    assert!(matches!(route(&registry, &join, 5, None), Routed::Delivered));
    assert!(matches!(rx.try_recv(), Ok(LobbyEvent::JoinRequested(5))));
    let add = format!("{ID}add");
    assert!(matches!(route(&registry, &add, 5, Some("zero")), Routed::Unusable));
    let pick = format!("{ID}player-join");
    match route(&registry, &pick, 5, Some("A")) {
        Routed::NeedsLookup(id, kind) => {
            assert_eq!(id, ID);
            assert_eq!(kind, InteractionKind::PlayerJoin);
        }
        other => panic!("{:?}", other),
    }
    assert!(matches!(route(&registry, "tiny", 5, None), Routed::Unparseable));
    let other = format!("{ID}something-else");
    assert!(matches!(route(&registry, &other, 5, None), Routed::Untracked));
    assert!(rx.try_recv().is_err());
}

#[test]
fn wide_time_zones_are_unreadable() {
    assert_eq!(requested_schedule("10:00 +9900", 0), Err(ScheduleError::Unreadable));
    assert_eq!(requested_schedule("2021-01-01 10:00 +9900", 0), Err(ScheduleError::Unreadable));
    assert_eq!(requested_schedule("2021-01-01 10:00 -2400", 0), Err(ScheduleError::Unreadable));
    assert!(wide_zone("6:00pm +24:00"));
    assert!(!wide_zone("2021-01-01 10:00 +2300"));
    assert!(!wide_zone("2021-05-30"));
    assert!(!wide_zone("May 30, 2021"));
    assert!(!wide_zone("+9"));
    assert_eq!(requested_schedule("2999-05-30", 0), Err(ScheduleError::TooFar));
    assert_eq!(requested_schedule("2001-05-30 10:00 +2300", 0), Err(ScheduleError::TooSoon));
}

#[test]
fn router_reports_stale_lobby_before_lookups() {
    let registry = LobbyRegistry::new();
    let pick = format!("{ID}player-join");
    assert!(matches!(route(&registry, &pick, 5, Some("A")), Routed::StaleLobby));
    assert!(matches!(route(&registry, ID, 5, Some("Valtan")), Routed::StaleLobby));
    let bad = format!("{ID}add");
    assert!(matches!(route(&registry, &bad, 5, Some("x")), Routed::StaleLobby));
}
