use ss14_discord_bot::bot::commands::{DiscordCommandDefinition, DiscordCommandResponse, ReplyMessage};
use ss14_discord_bot::bot::sponsor::{check_sponsorship, needs_role, reissue_in_guild, SponsorshipCheck, CHECK_INTERVAL_SECS};
use ss14_discord_bot::bot::{
    delivery, interaction_plan, parse_guild_ids, parse_valid_guild_ids, CommandRegistry, Delivery,
    InteractionRoute, SponsorTaskGate,
};
use ss14_discord_bot::decimal::IntErrorKind;
use ss14_discord_bot::error::Error;
use ss14_discord_bot::services::Sponsorship;

fn def(name: &str, global: bool, deferred: bool, ephemeral: bool) -> DiscordCommandDefinition {
    if global {
        DiscordCommandDefinition::new_global(name, deferred, ephemeral)
    } else {
        DiscordCommandDefinition::new_local(name, deferred, ephemeral)
    }
}

#[test]
fn registry_sorts_registrations_and_finds_handlers() {
    let reg = CommandRegistry::new(vec![
        def("ping", true, false, false),
        def("give-sponsor", false, true, true),
        def("link", true, true, true),
        def("ping", false, true, false),
    ]);
    assert_eq!(reg.global_registrations, vec![0, 2]);
    assert_eq!(reg.registrations, vec![1, 3]);
    assert_eq!(reg.find_handler("link"), Some(2));
    // of two handlers with one name, the last one answers
    assert_eq!(reg.find_handler("ping"), Some(3));
    assert_eq!(reg.find_handler("femboy"), None);
}

#[test]
fn guild_ids_are_read_strictly_or_leniently() {
    let ids: Vec<String> = vec!["123".into(), "456".into()];
    assert_eq!(parse_guild_ids(&ids).unwrap(), vec![123, 456]);
    let bad: Vec<String> = vec!["123".into(), "".into(), "x".into()];
    assert!(matches!(parse_guild_ids(&bad), Err(Error::ParseIntError(IntErrorKind::Empty))));
    let bad: Vec<String> = vec!["12x".into()];
    assert!(matches!(parse_guild_ids(&bad), Err(Error::ParseIntError(IntErrorKind::InvalidDigit))));
    let mixed: Vec<String> = vec!["1".into(), "x".into(), "3".into(), "99999999999999999999".into()];
    assert_eq!(parse_valid_guild_ids(&mixed), vec![1, 3]);
}

#[test]
fn interaction_plan_notices_and_routes() {
    let guilds = vec![10, 20];
    let d = def("link", true, true, true);
    let p = interaction_plan(Some(10), &guilds, Some(&d));
    assert!(p.notices.is_empty());
    assert!(matches!(p.route, InteractionRoute::Deferred { ref message, ephemeral: true } if message == "Your request is processing..."));
    let p = interaction_plan(Some(30), &guilds, Some(&d));
    assert_eq!(p.notices, vec!["Not allowed at this guild.".to_string()]);
    let p = interaction_plan(None, &guilds, None);
    assert_eq!(p.notices, vec!["Not allowed in DMs.".to_string()]);
    assert!(matches!(p.route, InteractionRoute::NotFound { ref message } if message == "Command not found!"));
    let quick = def("ping", true, false, false);
    assert!(matches!(interaction_plan(Some(20), &guilds, Some(&quick)).route, InteractionRoute::Immediate));
}

fn msg(text: &str) -> ReplyMessage {
    ReplyMessage { content: text.to_string(), embed: false, error_id: None, color: None, ephemeral: false }
}

#[test]
fn delivery_matches_the_route() {
    assert!(matches!(delivery(true, DiscordCommandResponse::Followup(msg("a"))), Delivery::Followup(ref m) if m.content == "a"));
    assert!(matches!(delivery(true, DiscordCommandResponse::Default(msg("a"))), Delivery::Mismatch));
    assert!(matches!(delivery(false, DiscordCommandResponse::Default(msg("b"))), Delivery::Respond(ref m) if m.content == "b"));
    assert!(matches!(delivery(false, DiscordCommandResponse::Followup(msg("b"))), Delivery::Mismatch));
}

#[test]
fn sponsor_task_starts_once() {
    let mut gate = SponsorTaskGate::new();
    assert!(gate.try_start());
    assert!(!gate.try_start());
    assert!(!gate.try_start());
}

fn sponsorship(user: &str, role: &str, expires_at: Option<i64>) -> Sponsorship {
    Sponsorship { discord_id: user.to_string(), role_id: role.to_string(), expires_at }
}

#[test]
fn watcher_decisions() {
    assert_eq!(CHECK_INTERVAL_SECS, 300);
    assert_eq!(check_sponsorship(&sponsorship("x", "1", None), 100), SponsorshipCheck::InvalidUser);
    assert_eq!(check_sponsorship(&sponsorship("5", "", None), 100), SponsorshipCheck::InvalidRole);
    assert_eq!(check_sponsorship(&sponsorship("5", "7", Some(100)), 100), SponsorshipCheck::Revoke { user_id: 5, role_id: 7 });
    assert_eq!(check_sponsorship(&sponsorship("5", "7", Some(101)), 100), SponsorshipCheck::Keep { user_id: 5, role_id: 7 });
    assert_eq!(check_sponsorship(&sponsorship("5", "7", None), i64::MAX), SponsorshipCheck::Keep { user_id: 5, role_id: 7 });
    assert!(needs_role(&vec![1, 2], 7));
    assert!(!needs_role(&vec![1, 7, 2], 7));
    assert!(needs_role(&vec![], 7));
}

#[test]
fn error_messages() {
    assert_eq!(Error::bot("oops").message(), "Discord bot error: oops");
    assert_eq!(Error::auth("denied").message(), "TypeAuthD Error: denied");
    assert_eq!(Error::ParseIntError(IntErrorKind::InvalidDigit).message(), "Type mismatch error: invalid digit found in string");
    assert_eq!(Error::ParseIntError(IntErrorKind::Empty).message(), "Type mismatch error: cannot parse integer from empty string");
    assert_eq!(Error::ParseIntError(IntErrorKind::PosOverflow).message(), "Type mismatch error: number too large to fit in target type");
    assert_eq!(Error::DatabaseError("gone".into()).message(), "Database error: gone");
    let e = "x".parse::<u64>().unwrap_err();
    assert_eq!(Error::ParseIntError(IntErrorKind::InvalidDigit).message(), format!("Type mismatch error: {}", e));
}

#[test]
fn watcher_decisions_over_time() {
    let s = sponsorship("5", "7", Some(1_000));
    // active before the end, revoked from the end on
    assert_eq!(check_sponsorship(&s, 0), SponsorshipCheck::Keep { user_id: 5, role_id: 7 });
    assert_eq!(check_sponsorship(&s, 999), SponsorshipCheck::Keep { user_id: 5, role_id: 7 });
    for now in [1_000, 1_001, 5_000, i64::MAX] {
        assert_eq!(check_sponsorship(&s, now), SponsorshipCheck::Revoke { user_id: 5, role_id: 7 });
    }
    let permanent = sponsorship("5", "7", None);
    for now in [i64::MIN, 0, i64::MAX] {
        assert_eq!(check_sponsorship(&permanent, now), SponsorshipCheck::Keep { user_id: 5, role_id: 7 });
    }
}

#[test]
fn reissue_only_where_the_member_lacks_the_role() {
    let roles = vec![5u64, 7u64];
    assert!(!reissue_in_guild(Some(&roles), 7));
    assert!(reissue_in_guild(Some(&roles), 9));
    assert!(!reissue_in_guild(None, 9));
}
