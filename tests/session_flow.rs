use ark_guild_bot::character::Character;
use ark_guild_bot::content::{ContentInfo, LobbyContent};
use ark_guild_bot::session::{Effect, LobbyContext, LobbyEvent, Notice, State};

fn ch(owner: u64, name: &str, level: i32) -> Character {
    Character {
        id: owner,
        guild_id: 7,
        name: name.to_string(),
        class: "Bard".to_string(),
        item_level: level,
    }
}

fn info(size: usize, req: i32) -> ContentInfo {
    ContentInfo {
        name: "Argos Phase One".to_string(),
        content_type: "abyss-raid".to_string(),
        tier: 3,
        ilvl_req: req,
        content_size: size,
        image: String::new(),
        banner: String::new(),
        guide: String::new(),
        gameplay_video: String::new(),
        introduction: String::new(),
    }
}

fn names(v: &[Character]) -> Vec<String> {
    v.iter().map(|c| c.name.clone()).collect()
}

fn pool() -> Vec<Character> {
    vec![
        ch(1, "A", 1400),
        ch(2, "B", 1400),
        ch(3, "C", 1400),
        ch(4, "D", 1400),
        ch(5, "E", 1400),
        ch(6, "Low", 1200),
    ]
}

fn collecting(size: usize) -> LobbyContext {
    let mut ctx = LobbyContext::new("x".repeat(36), 7, 8, 9, 10, None);
    let fx = ctx.handle(LobbyEvent::ContentChosen(LobbyContent::AbyssRaid));
    assert!(matches!(fx.as_slice(), [Effect::ShowInstancePicker(LobbyContent::AbyssRaid)]));
    assert_eq!(ctx.state, State::FirstPrompt);
    let fx = ctx.handle(LobbyEvent::ContentInfoChosen(info(size, 1370)));
    assert!(matches!(fx.as_slice(), [Effect::RefreshCandidates, Effect::RenderEditor]));
    assert_eq!(ctx.state, State::CollectingPlayers);
    ctx.set_candidates(pool());
    ctx
}

fn add_named(ctx: &mut LobbyContext, name: &str) -> Vec<Effect> {
    let idx = ctx.players.iter().position(|c| c.name == name).unwrap_or(usize::MAX);
    let fx = ctx.handle(LobbyEvent::PlayerAddRequested(idx));
    ctx.set_candidates(pool());
    fx
}

#[test]
fn end_to_end_roster_capacity_four() {
    let mut ctx = collecting(4);
    assert_eq!(names(&ctx.players), vec!["A", "B", "C", "D", "E"]);
    add_named(&mut ctx, "A");
    add_named(&mut ctx, "B");
    add_named(&mut ctx, "C");
    assert_eq!(names(&ctx.active_players), vec!["A", "B", "C"]);
    assert_eq!(names(&ctx.players), vec!["D", "E"]);
    let fx = add_named(&mut ctx, "D");
    assert!(matches!(fx.as_slice(), [Effect::RefreshCandidates, Effect::RenderEditor]));
    assert_eq!(names(&ctx.active_players), vec!["A", "B", "C", "D"]);
    assert!(ctx.is_full());
    let fx = add_named(&mut ctx, "E");
    assert!(matches!(fx.as_slice(), [Effect::Inform(Notice::Full)]));
    assert_eq!(names(&ctx.active_players), vec!["A", "B", "C", "D"]);
    let fx = ctx.handle(LobbyEvent::PlayerRemoveRequested(1));
    assert!(matches!(fx.as_slice(), [Effect::RefreshCandidates, Effect::RenderEditor]));
    ctx.set_candidates(pool());
    assert_eq!(names(&ctx.active_players), vec!["A", "C", "D"]);
    assert_eq!(names(&ctx.players), vec!["B", "E"]);
}

#[test]
fn candidates_exclude_active_owners_and_low_levels() {
    let mut ctx = collecting(4);
    ctx.set_candidates(vec![ch(1, "A", 1400), ch(1, "A2", 1380), ch(6, "Low", 1369)]);
    assert_eq!(names(&ctx.players), vec!["A", "A2"]);
    let fx = ctx.handle(LobbyEvent::PlayerAddRequested(0));
    assert!(matches!(fx.as_slice(), [Effect::RefreshCandidates, Effect::RenderEditor]));
    assert!(ctx.players.is_empty());
    assert!(ctx.is_active_player(1));
    assert!(!ctx.is_active_player(2));
}

#[test]
fn out_of_range_positions_change_nothing() {
    let mut ctx = collecting(4);
    let fx = ctx.handle(LobbyEvent::PlayerAddRequested(99));
    assert!(matches!(fx.as_slice(), [Effect::Inform(Notice::Rejected)]));
    let fx = ctx.handle(LobbyEvent::PlayerRemoveRequested(0));
    assert!(matches!(fx.as_slice(), [Effect::Inform(Notice::NotParticipant)]));
    assert!(ctx.active_players.is_empty());
}

#[test]
fn events_out_of_order_are_rejected() {
    let mut ctx = LobbyContext::new("x".repeat(36), 1, 2, 3, 4, None);
    let fx = ctx.handle(LobbyEvent::PublishPublic);
    assert!(matches!(fx.as_slice(), [Effect::Inform(Notice::Rejected)]));
    let fx = ctx.handle(LobbyEvent::ExternalLeave(5));
    assert!(matches!(fx.as_slice(), [Effect::Inform(Notice::Rejected)]));
    let fx = ctx.handle(LobbyEvent::ContentInfoChosen(info(4, 0)));
    assert!(matches!(fx.as_slice(), [Effect::Inform(Notice::Rejected)]));
    assert_eq!(ctx.state, State::ContentSelection);
    assert!(ctx.content_info.is_none());
    let fx = ctx.handle(LobbyEvent::ScheduleChanged(5_000));
    assert!(matches!(fx.as_slice(), [Effect::Inform(Notice::Rejected)]));
    assert_eq!(ctx.lobby_time, None);
}

#[test]
fn close_during_formation_ends_the_lobby() {
    let mut ctx = collecting(4);
    let fx = ctx.handle(LobbyEvent::Close);
    assert!(matches!(fx.as_slice(), [Effect::CancelTimer, Effect::Deregister]));
    assert!(!ctx.active);
    let fx = ctx.handle(LobbyEvent::PublishPrivate);
    assert!(matches!(fx.as_slice(), [Effect::Inform(Notice::Closed)]));
    assert_eq!(ctx.state, State::CollectingPlayers);
}

#[test]
fn publish_private_with_schedule_installs_timer() {
    let mut ctx = LobbyContext::new("x".repeat(36), 1, 2, 3, 4, Some(10_000));
    ctx.handle(LobbyEvent::ContentChosen(LobbyContent::GuardianRaid));
    ctx.handle(LobbyEvent::ContentInfoChosen(info(4, 0)));
    ctx.set_candidates(pool());
    let fx = ctx.handle(LobbyEvent::PublishPrivate);
    assert_eq!(ctx.state, State::PrivateFinalized);
    assert!(ctx.players.is_empty());
    match fx.as_slice() {
        [Effect::SaveSession, Effect::InstallTimer(plan), Effect::RenderPublished(false)] => {
            assert_eq!(plan.generation, 1);
            assert_eq!(plan.reminder_at, 9_400);
            assert_eq!(plan.expire_at, 10_000);
        }
        other => panic!("unexpected effects {:?}", other),
    }
}

#[test]
fn publish_public_without_schedule() {
    let mut ctx = collecting(4);
    let fx = ctx.handle(LobbyEvent::PublishPublic);
    assert!(matches!(fx.as_slice(), [Effect::SaveSession, Effect::RenderPublished(true)]));
    assert_eq!(ctx.state, State::PublicFinalized);
    assert!(ctx.timer.live.is_none());
}

fn published(size: usize) -> LobbyContext {
    let mut ctx = collecting(size);
    ctx.handle(LobbyEvent::PublishPublic);
    ctx
}

#[test]
fn external_join_and_leave() {
    let mut ctx = published(2);
    let fx = ctx.handle(LobbyEvent::JoinRequested(1));
    assert!(matches!(fx.as_slice(), [Effect::OfferCharacters(1)]));
    let fx = ctx.handle(LobbyEvent::ExternalJoin(ch(1, "A", 1400)));
    match fx.as_slice() {
        [Effect::SaveJoin(c), Effect::Render] => assert_eq!(c.name, "A"),
        other => panic!("unexpected effects {:?}", other),
    }
    let fx = ctx.handle(LobbyEvent::JoinRequested(1));
    assert!(matches!(fx.as_slice(), [Effect::Inform(Notice::AlreadyJoined)]));
    let fx = ctx.handle(LobbyEvent::ExternalJoin(ch(1, "A2", 1400)));
    assert!(matches!(fx.as_slice(), [Effect::Inform(Notice::AlreadyJoined)]));
    ctx.handle(LobbyEvent::ExternalJoin(ch(2, "B", 1400)));
    let fx = ctx.handle(LobbyEvent::ExternalJoin(ch(3, "C", 1400)));
    assert!(matches!(fx.as_slice(), [Effect::Inform(Notice::Full)]));
    let fx = ctx.handle(LobbyEvent::JoinRequested(3));
    assert!(matches!(fx.as_slice(), [Effect::Inform(Notice::Full)]));
    assert_eq!(names(&ctx.active_players), vec!["A", "B"]);
    let fx = ctx.handle(LobbyEvent::ExternalLeave(9));
    assert!(matches!(fx.as_slice(), [Effect::Inform(Notice::NotParticipant)]));
    let fx = ctx.handle(LobbyEvent::ExternalLeave(1));
    match fx.as_slice() {
        [Effect::SaveRemoval(c), Effect::Render] => assert_eq!(c.name, "A"),
        other => panic!("unexpected effects {:?}", other),
    }
    assert_eq!(names(&ctx.active_players), vec!["B"]);
}

#[test]
fn rescheduling_leaves_only_the_last_chain() {
    let mut ctx = published(4);
    for t in [20_000i64, 30_000, 40_000] {
        let fx = ctx.handle(LobbyEvent::ScheduleChanged(t));
        assert!(matches!(
            fx.as_slice(),
            [Effect::CancelTimer, Effect::InstallTimer(_), Effect::Render, Effect::NotifyRescheduled(_)]
        ));
    }
    assert_eq!(ctx.lobby_time, Some(40_000));
    let live = ctx.timer.live.unwrap();
    assert_eq!(live.generation, 3);
    assert_eq!(live.reminder_at, 39_400);
    for old in [1u64, 2] {
        assert!(ctx.handle(LobbyEvent::ReminderDue(old)).is_empty());
        assert!(ctx.handle(LobbyEvent::ExpireDue(old)).is_empty());
    }
    assert!(ctx.active);
    let fx = ctx.handle(LobbyEvent::ReminderDue(3));
    assert!(matches!(fx.as_slice(), [Effect::NotifyReminder]));
    assert!(ctx.handle(LobbyEvent::ReminderDue(3)).is_empty());
    let fx = ctx.handle(LobbyEvent::ExpireDue(3));
    assert!(matches!(fx.as_slice(), [Effect::MarkInactive, Effect::Deregister]));
    assert!(!ctx.active);
    let fx = ctx.handle(LobbyEvent::ExpireDue(3));
    assert!(matches!(fx.as_slice(), [Effect::Inform(Notice::Closed)]));
}

#[test]
fn getters_of_chosen_content() {
    let ctx = collecting(4);
    assert_eq!(ctx.lobby_content(), LobbyContent::AbyssRaid);
    assert_eq!(ctx.content_info().content_size, 4);
    assert_eq!(ctx.capacity(), 4);
    assert_eq!(ctx.min_level(), 1370);
}

#[test]
fn direct_roster_methods() {
    let mut ctx = published(2);
    assert!(ctx.add_active_player_by_model(ch(1, "A", 1)));
    assert!(!ctx.add_active_player_by_model(ch(1, "A2", 1)));
    assert!(ctx.add_active_player_by_model(ch(2, "B", 1)));
    assert!(!ctx.add_active_player_by_model(ch(3, "C", 1)));
    let removed = ctx.remove_active_player(0).unwrap();
    assert_eq!(removed.name, "A");
    assert!(ctx.remove_active_player(5).is_none());
    assert_eq!(names(&ctx.active_players), vec!["B"]);
}

#[test]
fn adding_a_character_directly_drops_its_owners_candidates() {
    let mut ctx = collecting(4);
    assert!(ctx.add_active_player_by_model(ch(2, "B2", 1380)));
    assert_eq!(names(&ctx.active_players), vec!["B2"]);
    assert_eq!(names(&ctx.players), vec!["A", "C", "D", "E"]);
    assert!(!ctx.add_active_player_by_model(ch(2, "B", 1400)));
    let mut fresh = LobbyContext::new("x".repeat(36), 1, 2, 3, 4, None);
    assert!(!fresh.add_active_player_by_model(ch(1, "A", 1400)));
}
