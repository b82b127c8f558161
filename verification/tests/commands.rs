use ss14_discord_bot::bot::commands::femboy::{femboy_image, FemboyCommand, FEMBOY_IMAGE_COUNT};
use ss14_discord_bot::bot::commands::link::{
    map_command, LinkAction, LinkCommand, LinkDiscordSubCommand, LinkSS14SubCommand, LinkState,
    LinkSubCommand,
};
use ss14_discord_bot::bot::commands::preferences::{PreferencesAction, PreferencesCommand};
use ss14_discord_bot::bot::commands::sponsor::SponsorCommand;
use ss14_discord_bot::bot::commands::{
    found_or_reply, opts_get_login, OptionKind, unwrap_or_reply, CommandOption, DiscordCommandDefinition,
    DiscordCommandResponse, Lookup, OptionValue, ReplyMessage,
};

fn opt(name: &str, value: OptionValue) -> CommandOption {
    CommandOption { name: name.to_string(), value }
}

fn text(name: &str, value: &str) -> CommandOption {
    opt(name, OptionValue::String(value.to_string()))
}

fn followup(r: &DiscordCommandResponse) -> &ReplyMessage {
    match r {
        DiscordCommandResponse::Followup(m) => m,
        DiscordCommandResponse::Default(_) => panic!("expected a follow-up"),
    }
}

fn assert_error_reply(r: &DiscordCommandResponse, content: &str) {
    let m = followup(r);
    assert_eq!(m.content, content);
    assert!(m.embed);
    assert!(m.ephemeral);
    assert!(m.error_id.is_none());
    assert_eq!(m.color.map(|c| c.value), Some(0xFF0000));
}

fn assert_logged_error_reply(r: &DiscordCommandResponse, content: &str) {
    let m = followup(r);
    assert_eq!(m.content, content);
    assert!(m.embed);
    assert!(m.ephemeral);
    assert_eq!(m.error_id.as_ref().map(|id| id.len()), Some(36));
    assert_eq!(m.color.map(|c| c.value), Some(0xFF0000));
}

fn reply_of(a: LinkAction) -> DiscordCommandResponse {
    match a {
        LinkAction::Reply(r) => r,
        other => panic!("expected a reply, got {:?}", other),
    }
}

#[test]
fn definitions_of_the_commands() {
    let d = FemboyCommand.definition();
    assert_eq!((d.name.as_str(), d.is_global, d.is_deferred, d.is_ephemeral), ("femboy", true, true, false));
    let d = LinkCommand.definition();
    assert_eq!((d.name.as_str(), d.is_global, d.is_deferred, d.is_ephemeral), ("link", true, true, true));
    let d = PreferencesCommand.definition();
    assert_eq!((d.name.as_str(), d.is_global, d.is_deferred, d.is_ephemeral), ("preferences", true, true, true));
    let d = SponsorCommand.definition();
    assert_eq!((d.name.as_str(), d.is_global, d.is_deferred, d.is_ephemeral), ("give-sponsor", false, true, true));
    let d = DiscordCommandDefinition::new_local("x", false, true);
    assert!(!d.is_global && !d.is_deferred && d.is_ephemeral);
}

#[test]
fn femboy_answers_with_one_of_the_pictures() {
    let urls: Vec<&str> = (0..FEMBOY_IMAGE_COUNT).map(femboy_image).collect();
    for _ in 0..20 {
        let r = FemboyCommand.handler(&vec![]);
        let m = followup(&r);
        assert!(urls.contains(&m.content.as_str()));
        assert!(!m.ephemeral && !m.embed);
    }
    let m = FemboyCommand::response_for(3);
    assert_eq!(followup(&m).content, "https://i.pinimg.com/736x/cf/2d/45/cf2d456b0f88017dbbbc6f8c9d9f7d17.jpg");
}

#[test]
fn unwrap_helpers() {
    assert_eq!(unwrap_or_reply(Some(3), "none", true).ok(), Some(3));
    let r = unwrap_or_reply::<u8>(None, "Nothing here", true).unwrap_err();
    assert_error_reply(&r, "Nothing here");
    assert_eq!(found_or_reply(Lookup::Found(5), "a", "b", true).ok(), Some(5));
    assert_error_reply(&found_or_reply::<u8>(Lookup::Missing, "a", "b", true).unwrap_err(), "a");
    assert_logged_error_reply(&found_or_reply::<u8>(Lookup::Failed, "a", "b", true).unwrap_err(), "b");
}

#[test]
fn opts_get_login_finds_the_login_string() {
    let opts = vec![opt("login", OptionValue::User(5)), text("other", "x"), text("login", "Ian")];
    assert_eq!(opts_get_login(&opts), Some("Ian".to_string()));
    assert_eq!(opts_get_login(&vec![text("name", "x")]), None);
}

fn group(name: &str, sub: &str, args: Vec<CommandOption>) -> CommandOption {
    opt(name, OptionValue::SubCommandGroup(vec![opt(sub, OptionValue::SubCommand(args))]))
}

#[test]
fn map_command_reads_each_sub_command() {
    let r = map_command(&vec![group("discord", "status", vec![opt("user", OptionValue::User(42))])]);
    assert!(matches!(r, Some(LinkSubCommand::Discord { command: LinkDiscordSubCommand::Status(42) })));
    let r = map_command(&vec![group("discord", "unlink", vec![opt("user", OptionValue::User(7))])]);
    assert!(matches!(r, Some(LinkSubCommand::Discord { command: LinkDiscordSubCommand::Unlink(7) })));
    let r = map_command(&vec![group("ss14", "status", vec![text("login", "Ian")])]);
    assert!(matches!(r, Some(LinkSubCommand::SS14 { command: LinkSS14SubCommand::Status(ref l) }) if l == "Ian"));
    let r = map_command(&vec![group("ss14", "unlink", vec![text("login", "Bob")])]);
    assert!(matches!(r, Some(LinkSubCommand::SS14 { command: LinkSS14SubCommand::Unlink(ref l) }) if l == "Bob"));
}

#[test]
fn map_command_skips_and_stops() {
    assert!(map_command(&vec![]).is_none());
    // an unknown group is skipped
    let r = map_command(&vec![
        group("other", "status", vec![text("login", "x")]),
        group("ss14", "status", vec![text("login", "Ian")]),
    ]);
    assert!(matches!(r, Some(LinkSubCommand::SS14 { .. })));
    // a group without sub-commands stops the search
    let r = map_command(&vec![
        opt("discord", OptionValue::SubCommandGroup(vec![])),
        group("ss14", "status", vec![text("login", "Ian")]),
    ]);
    assert!(r.is_none());
    // a known sub-command without its argument stops the search
    let r = map_command(&vec![group("discord", "status", vec![]), group("ss14", "status", vec![text("login", "Ian")])]);
    assert!(r.is_none());
    // an argument of the wrong kind is skipped
    let r = map_command(&vec![
        group("discord", "status", vec![text("user", "42")]),
        group("ss14", "unlink", vec![text("login", "Ian")]),
    ]);
    assert!(matches!(r, Some(LinkSubCommand::SS14 { command: LinkSS14SubCommand::Unlink(_) })));
    // an unknown sub-command is skipped even without argument
    let r = map_command(&vec![group("discord", "ban", vec![]), group("discord", "unlink", vec![opt("u", OptionValue::User(1))])]);
    assert!(matches!(r, Some(LinkSubCommand::Discord { command: LinkDiscordSubCommand::Unlink(1) })));
}

#[test]
fn link_discord_status_flow() {
    let s = LinkCommand::start(&vec![group("discord", "status", vec![opt("user", OptionValue::User(42))])]);
    assert!(matches!(s.action, LinkAction::GetUserIdFromDiscord(ref d) if d == "42"));
    let s = LinkCommand::step(s.state.unwrap(), Lookup::Found("uid-1".to_string()));
    assert!(matches!(s.action, LinkAction::GetLogin(ref u) if u == "uid-1"));
    let s = LinkCommand::step(s.state.unwrap(), Lookup::Found("Ian".to_string()));
    assert!(matches!(s.action, LinkAction::GetExtraData(ref d) if d == "42"));
    let s = LinkCommand::step(s.state.unwrap(), Lookup::Found("Hours: 3\n".to_string()));
    assert!(s.state.is_none());
    let r = reply_of(s.action);
    let m = followup(&r);
    assert_eq!(m.content, "🧑‍🚀 **In-Game Login:** `Ian`\n🧾 **Extra Data:** \nHours: 3\n");
    assert!(m.embed && m.ephemeral && m.error_id.is_none());
    assert!(m.color.unwrap().value <= 0xFF_FFFF);
}

#[test]
fn link_discord_status_failures() {
    let st = || LinkState::DiscordStatusAccount { discord_id: "42".to_string() };
    assert_error_reply(&reply_of(LinkCommand::step(st(), Lookup::Missing).action), "🔍 No linked SS14 account found for this user.");
    assert_logged_error_reply(&reply_of(LinkCommand::step(st(), Lookup::Failed).action), "❌ An error occurred while fetching UUID.");
    let st = || LinkState::DiscordStatusLogin { discord_id: "42".to_string() };
    assert_error_reply(&reply_of(LinkCommand::step(st(), Lookup::Missing).action), "❔ User has no known in-game login.");
    assert_logged_error_reply(&reply_of(LinkCommand::step(st(), Lookup::Failed).action), "❌ An error occurred while fetching login.");
    let st = LinkState::StatusExtraData { login: "Ian".to_string() };
    assert_logged_error_reply(&reply_of(LinkCommand::step(st, Lookup::Failed).action), "❌ An error occurred while fetching extra data.");
}

#[test]
fn link_ss14_status_flow() {
    let s = LinkCommand::start(&vec![group("ss14", "status", vec![text("login", "Ian")])]);
    assert!(matches!(s.action, LinkAction::GetUserId(ref l) if l == "Ian"));
    let s = LinkCommand::step(s.state.unwrap(), Lookup::Found("uid-9".to_string()));
    assert!(matches!(s.action, LinkAction::GetDiscordId(ref u) if u == "uid-9"));
    let s = LinkCommand::step(s.state.unwrap(), Lookup::Found("0042".to_string()));
    assert!(matches!(s.action, LinkAction::GetExtraData(ref d) if d == "42"));
    let s = LinkCommand::step(s.state.unwrap(), Lookup::Found("No extra data found.".to_string()));
    let r = reply_of(s.action);
    assert_eq!(followup(&r).content, "🧑‍🚀 **In-Game Login:** `Ian`\n🧾 **Extra Data:** \nNo extra data found.");
    let st = || LinkState::SS14StatusAccount { login: "Ian".to_string() };
    assert_error_reply(&reply_of(LinkCommand::step(st(), Lookup::Missing).action), "User not found");
    assert_logged_error_reply(&reply_of(LinkCommand::step(st(), Lookup::Failed).action), "Error occured during fetching UserID");
    let st = || LinkState::SS14StatusDiscord { login: "Ian".to_string() };
    assert_error_reply(&reply_of(LinkCommand::step(st(), Lookup::Missing).action), "User is not linked");
    assert_logged_error_reply(&reply_of(LinkCommand::step(st(), Lookup::Failed).action), "Error occured during fetching discord ID");
}

#[test]
fn link_unlink_flows() {
    let s = LinkCommand::start(&vec![group("discord", "unlink", vec![opt("user", OptionValue::User(77))])]);
    assert!(matches!(s.action, LinkAction::DeleteRecord { ref kind, ref key } if kind == "discord" && key == "77"));
    let r = reply_of(LinkCommand::step(s.state.unwrap(), Lookup::Found(String::new())).action);
    assert_eq!(followup(&r).content, "Successfully unlinked account.");
    let r = reply_of(LinkCommand::step(LinkState::Unlinking, Lookup::Missing).action);
    assert_eq!(followup(&r).content, "No such linked account exist.");
    let r = reply_of(LinkCommand::step(LinkState::Unlinking, Lookup::Failed).action);
    let m = followup(&r);
    assert!(m.content.starts_with("Error occurred while trying to delete record.\nError ID: "));
    assert_eq!(m.content.len(), "Error occurred while trying to delete record.\nError ID: ".len() + 36);
    assert!(!m.embed && m.ephemeral && m.error_id.is_none() && m.color.is_none());

    let s = LinkCommand::start(&vec![group("ss14", "unlink", vec![text("login", "Bob")])]);
    assert!(matches!(s.action, LinkAction::GetUserId(ref l) if l == "Bob"));
    let s = LinkCommand::step(s.state.unwrap(), Lookup::Found("uid-3".to_string()));
    assert!(matches!(s.action, LinkAction::DeleteRecord { ref kind, ref key } if kind == "uid" && key == "uid-3"));
    assert_error_reply(&reply_of(LinkCommand::step(LinkState::SS14UnlinkAccount, Lookup::Missing).action), "User not found");
    assert_logged_error_reply(&reply_of(LinkCommand::step(LinkState::SS14UnlinkAccount, Lookup::Failed).action), "Error occured during UserID fetch");
}

#[test]
fn link_without_command() {
    let s = LinkCommand::start(&vec![]);
    assert!(s.state.is_none());
    assert_error_reply(&reply_of(s.action), "No command supplied");
}

#[test]
fn preferences_flow() {
    let r = PreferencesCommand::start(&vec![]);
    assert!(matches!(r, PreferencesAction::Reply(ref r) if followup(r).content == "Invalid command" && !followup(r).embed));
    let r = PreferencesCommand::start(&vec![text("delete", "x")]);
    assert!(matches!(r, PreferencesAction::Reply(ref r) if followup(r).content == "Invalid command passed"));
    let r = PreferencesCommand::start(&vec![opt("delete", OptionValue::SubCommand(vec![]))]);
    match r {
        PreferencesAction::Reply(r) => assert_error_reply(&r, "Login is not specified"),
        _ => panic!(),
    }
    let r = PreferencesCommand::start(&vec![text("other", "y"), opt("delete", OptionValue::SubCommand(vec![text("login", "Ian")]))]);
    assert!(matches!(r, PreferencesAction::GetUserId(ref l) if l == "Ian"));

    assert_eq!(PreferencesCommand::user_id_found(Lookup::Found("u".to_string())).ok(), Some("u".to_string()));
    assert_error_reply(&PreferencesCommand::user_id_found(Lookup::Missing).unwrap_err(), "Login is not specified");
    assert_logged_error_reply(&PreferencesCommand::user_id_found(Lookup::Failed).unwrap_err(), "Error occurred during UID fetch.");

    let ok = PreferencesCommand::preferences_deleted(true);
    let m = followup(&ok);
    assert_eq!(m.content, "Success!");
    assert!(m.embed && m.ephemeral && m.error_id.is_none());
    let failed = PreferencesCommand::preferences_deleted(false);
    let m = followup(&failed);
    assert_eq!(m.content, "Failed to delete user's preferences. Check server logs for more info.");
    assert!(m.embed && m.ephemeral);
    assert_eq!(m.error_id.as_ref().map(|id| id.len()), Some(36));
    assert_eq!(m.color.map(|c| c.value), Some(0xE74C3C));
}

fn sponsor_opts(user: Option<u64>, role: Option<&str>, duration: Option<&str>) -> Vec<CommandOption> {
    let mut v = vec![];
    if let Some(u) = user {
        v.push(opt("user", OptionValue::User(u)));
    }
    if let Some(r) = role {
        v.push(text("role", r));
    }
    if let Some(d) = duration {
        v.push(text("duration", d));
    }
    v
}

#[test]
fn sponsor_request_validation() {
    assert_error_reply(&SponsorCommand::request(&sponsor_opts(None, Some("1"), None)).unwrap_err(), "User is not specified");
    assert_error_reply(&SponsorCommand::request(&sponsor_opts(Some(5), None, None)).unwrap_err(), "Role is not specified");
    assert_error_reply(&SponsorCommand::request(&sponsor_opts(Some(5), Some("gold"), None)).unwrap_err(), "The selected role is invalid.");
    assert_error_reply(
        &SponsorCommand::request(&sponsor_opts(Some(5), Some("9"), Some("forever"))).unwrap_err(),
        "Invalid duration format. Use e.g. `30d`, `12h`, `1w`, or leave it empty for a permanent sponsorship.",
    );
}

#[test]
fn sponsor_request_reads_durations() {
    let r = SponsorCommand::request(&sponsor_opts(Some(5), Some("900"), Some(" 1h30m "))).unwrap();
    assert_eq!((r.user_id, r.role_id.as_str(), r.role, r.duration_secs), (5, "900", 900, Some(5_400)));
    let r = SponsorCommand::request(&sponsor_opts(Some(5), Some("+900"), Some("   "))).unwrap();
    assert_eq!((r.role_id.as_str(), r.role, r.duration_secs), ("+900", 900, None));
    let r = SponsorCommand::request(&sponsor_opts(Some(5), Some("900"), None)).unwrap();
    assert_eq!(r.duration_secs, None);
}

#[test]
fn sponsor_expiry_and_messages() {
    assert_eq!(SponsorCommand::expiry(1_000, Some(60)), Some(1_060));
    assert_eq!(SponsorCommand::expiry(1_000, None), None);
    assert_eq!(
        SponsorCommand::grant_message("900", 5, Some(1_060), true),
        "✅ Granted <@&900> to <@5>.\n⏳ Active until <t:1060:F> (<t:1060:R>).\nThe role has been assigned."
    );
    assert_eq!(
        SponsorCommand::grant_message("900", 5, None, false),
        "✅ Granted **permanent** <@&900> to <@5>.\nThe role will be assigned automatically once the user is on the server."
    );
    let r = SponsorCommand::grant_reply("900", 5, None, true);
    let m = followup(&r);
    assert!(m.embed && m.ephemeral && m.error_id.is_none());
    assert_logged_error_reply(&SponsorCommand::store_failed_reply(), "Failed to store the sponsorship. Check server logs for more info.");
}

#[test]
fn registrations_describe_the_commands() {
    let c = FemboyCommand.registration();
    assert_eq!((c.name.as_str(), c.description.as_str()), ("femboy", ">w<"));
    assert_eq!(c.name_localizations, vec![("ru".to_string(), "фембой".to_string())]);
    assert!(c.options.is_empty() && !c.manage_webhooks_only);

    let c = LinkCommand.registration();
    assert_eq!(c.name, "link");
    assert_eq!(c.options.len(), 2);
    assert_eq!((c.options[0].name.as_str(), c.options[0].kind), ("discord", OptionKind::SubCommandGroup));
    assert_eq!(c.options[0].options[0].options[0].kind, OptionKind::User);
    assert!(c.options[0].options[0].options[0].required);
    assert!(!c.options[0].options[1].options[0].required);
    assert_eq!(c.options[1].options[1].options[0].name, "login");
    assert_eq!(c.options[1].options[1].options[0].description, "Login to unlink");

    let c = PreferencesCommand.registration();
    assert!(c.manage_webhooks_only);
    assert_eq!(c.options[0].name, "delete");
    assert_eq!(c.options[0].options[0].name, "login");
    assert!(c.options[0].options[0].required);

    let roles = vec![("Gold".to_string(), 111u64), ("Silver".to_string(), 222u64)];
    let c = SponsorCommand.registration(&roles);
    assert_eq!(c.name, "give-sponsor");
    assert!(c.manage_webhooks_only);
    let names: Vec<&str> = c.options.iter().map(|o| o.name.as_str()).collect();
    assert_eq!(names, vec!["user", "role", "duration"]);
    assert_eq!(
        c.options[1].choices,
        vec![("Gold".to_string(), "111".to_string()), ("Silver".to_string(), "222".to_string())]
    );
    assert!(!c.options[2].required);
}

#[test]
fn registered_invocations_are_understood() {
    // build an invocation along every declared path of /link and read it back
    let c = LinkCommand.registration();
    for (g, group_spec) in c.options.iter().enumerate() {
        for (k, sub_spec) in group_spec.options.iter().enumerate() {
            let arg_spec = &sub_spec.options[0];
            let value = match arg_spec.kind {
                OptionKind::User => OptionValue::User(9),
                _ => OptionValue::String("Ian".to_string()),
            };
            let opts = vec![group(&group_spec.name, &sub_spec.name, vec![opt(&arg_spec.name, value)])];
            match map_command(&opts) {
                Some(LinkSubCommand::Discord { command }) => {
                    assert_eq!(g, 0);
                    assert_eq!(k == 0, matches!(command, LinkDiscordSubCommand::Status(9)));
                }
                Some(LinkSubCommand::SS14 { command }) => {
                    assert_eq!(g, 1);
                    assert_eq!(k == 0, matches!(command, LinkSS14SubCommand::Status(_)));
                }
                None => panic!("not understood"),
            }
        }
    }
}

#[test]
fn offered_roles_are_read_back_by_the_request() {
    let roles = vec![("Gold".to_string(), 111u64), ("Max".to_string(), u64::MAX)];
    let c = SponsorCommand.registration(&roles);
    for ((_, value), (_, id)) in c.options[1].choices.iter().zip(roles.iter()) {
        let r = SponsorCommand::request(&sponsor_opts(Some(5), Some(value), None)).unwrap();
        assert_eq!(r.role, *id);
    }
}

fn choices_count(o: &ss14_discord_bot::bot::commands::OptionSpec) -> usize {
    o.choices.len() + o.options.iter().map(choices_count).sum::<usize>()
}

#[test]
fn registrations_fix_choices_only_for_the_role() {
    let c = LinkCommand.registration();
    assert!(c.description_localizations.is_empty());
    assert_eq!(c.options.iter().map(choices_count).sum::<usize>(), 0);
    let c = PreferencesCommand.registration();
    assert_eq!(c.options.iter().map(choices_count).sum::<usize>(), 0);
    let roles = vec![("Gold".to_string(), 111u64)];
    let c = SponsorCommand.registration(&roles);
    assert_eq!(choices_count(&c.options[0]), 0);
    assert_eq!(choices_count(&c.options[1]), 1);
    assert_eq!(choices_count(&c.options[2]), 0);
}

#[test]
fn every_link_reply_is_a_private_followup() {
    let replies = vec![
        LinkCommand::start(&vec![]),
        LinkCommand::step(LinkState::Unlinking, Lookup::Failed),
        LinkCommand::step(LinkState::Unlinking, Lookup::Found("x".to_string())),
        LinkCommand::step(
            LinkState::StatusExtraData { login: "bob".to_string() },
            Lookup::Found("data".to_string()),
        ),
        LinkCommand::step(LinkState::SS14StatusAccount { login: "bob".to_string() }, Lookup::Missing),
    ];
    for s in replies {
        match s.action {
            LinkAction::Reply(DiscordCommandResponse::Followup(m)) => assert!(m.ephemeral),
            _ => panic!("expected a follow-up reply"),
        }
    }
}
