//! `/preferences delete <login>`: removes a player's saved character
//! preferences.
//!
//! `PreferencesCommand::start` reads the invocation; the account lookup and
//! the removal are done by whoever runs the command, which hands their
//! results to `user_id_found` and `preferences_deleted`.

use vstd::prelude::*;

use crate::utils::{gen_random_color, palette_red, Color};

use super::{
    error_reply, found_or_reply, is_described, is_error_reply, is_followup_embed,
    is_followup_text, is_logged_error_reply, is_option, new_error_id, opts_get_login, pairs_view,
    string_arg, text_eq, CommandOption, CommandSpec, DiscordCommandDefinition,
    DiscordCommandResponse, Lookup, OptionKind, OptionSpec, OptionValue,
};

verus! {

/// Where the first option called `name` stands.
pub open spec fn option_index(opts: Seq<CommandOption>, name: Seq<char>) -> Option<nat>
    decreases opts.len(),
{
    if opts.len() == 0 {
        None
    } else if opts[0].name@ == name {
        Some(0)
    } else {
        match option_index(opts.drop_first(), name) {
            Some(i) => Some(i + 1),
            None => None,
        }
    }
}

/// What to do next.
#[derive(Debug)]
pub enum PreferencesAction {
    /// Look up the SS14 account of this login.
    GetUserId(String),
    /// Answer; the invocation is done.
    Reply(DiscordCommandResponse),
}

#[derive(Debug)]
pub struct PreferencesCommand;

impl PreferencesCommand {
    /// Registered globally, answered with a private deferred reply.
    pub fn definition(&self) -> (d: DiscordCommandDefinition)
        ensures
            d.name@ == "preferences"@,
            d.is_global,
            d.is_deferred,
            d.is_ephemeral,
    {
        DiscordCommandDefinition::new_global("preferences", true, true)
    }

    /// How the command is described to Discord: a `delete` sub-command with
    /// a required login, shown by default only to webhook managers.
    pub fn registration(&self) -> (c: CommandSpec)
        ensures
            c.name@ == "preferences"@,
            c.description@ == "Controls the player's profile"@,
            pairs_view(c.name_localizations@) == seq![("ru"@, "профиль"@)],
            pairs_view(c.description_localizations@) == seq![("ru"@, "Управляет профилем игрока"@)],
            c.manage_webhooks_only,
            c.options@.len() == 1,
            is_option(c.options@[0], OptionKind::SubCommand, "delete"@, false, 1),
            is_option(c.options@[0].options@[0], OptionKind::String, "login"@, true, 0),
            is_described(
                c.options@[0],
                "Removes the player's profile"@,
                Some("удалить"@),
                Some("Удаляет профиль игрока"@),
            ),
            is_described(
                c.options@[0].options@[0],
                "In-game player's login"@,
                None,
                Some("Внутриигровой логин игрока"@),
            ),
    {
        let c = CommandSpec::new("preferences").name_localized("ru", "профиль").description(
            "Controls the player's profile",
        ).description_localized("ru", "Управляет профилем игрока").restrict_to_webhook_managers().add_option(
            OptionSpec::new(
                OptionKind::SubCommand,
                "delete",
                "Removes the player's profile",
            ).name_localized("ru", "удалить").description_localized("ru", "Удаляет профиль игрока").add_sub_option(
                OptionSpec::new(
                    OptionKind::String,
                    "login",
                    "In-game player's login",
                ).description_localized("ru", "Внутриигровой логин игрока").required(true),
            ),
        );
        assert(pairs_view(c.name_localizations@) =~= seq![("ru"@, "профиль"@)]);
        assert(pairs_view(c.description_localizations@) =~= seq![("ru"@, "Управляет профилем игрока"@)]);
        c
    }

    /// The first step: find the `delete` sub-command and its login.
    pub fn start(opts: &Vec<CommandOption>) -> (a: PreferencesAction)
        ensures
            match option_index(opts@, "delete"@) {
                None => a matches PreferencesAction::Reply(r) && is_followup_text(
                    r,
                    "Invalid command"@,
                    true,
                ),
                Some(i) => match opts@[i as int].value {
                    OptionValue::SubCommand(args) => match string_arg(args@, "login"@) {
                        Some(login) => a == PreferencesAction::GetUserId(login),
                        None => a matches PreferencesAction::Reply(r) && is_error_reply(
                            r,
                            "Login is not specified"@,
                            true,
                        ),
                    },
                    _ => a matches PreferencesAction::Reply(r) && is_followup_text(
                        r,
                        "Invalid command passed"@,
                        true,
                    ),
                },
            },
    {
        let mut i: usize = 0;
        assert(opts@.skip(0) =~= opts@);
        while i < opts.len()
            invariant
                i <= opts.len(),
                option_index(opts@, "delete"@) == (match option_index(
                    opts@.skip(i as int),
                    "delete"@,
                ) {
                    Some(j) => Some((j + i) as nat),
                    None => None,
                }),
            ensures
                i == opts.len() || opts@[i as int].name@ == "delete"@,
                i <= opts.len(),
                option_index(opts@, "delete"@) == (match option_index(
                    opts@.skip(i as int),
                    "delete"@,
                ) {
                    Some(j) => Some((j + i) as nat),
                    None => None,
                }),
            decreases opts.len() - i,
        {
            assert(opts@.skip(i as int).drop_first() =~= opts@.skip(i + 1));
            assert(opts@.skip(i as int)[0] == opts@[i as int]);
            if text_eq(opts[i].name.as_str(), "delete") {
                break;
            }
            i = i + 1;
        }
        assert(i < opts.len() ==> opts@.skip(i as int)[0] == opts@[i as int]);
        assert(i == opts.len() ==> opts@.skip(i as int).len() == 0);
        if i == opts.len() {
            return PreferencesAction::Reply(
                DiscordCommandResponse::followup_response("Invalid command", true),
            );
        }
        match &opts[i].value {
            OptionValue::SubCommand(args) => match opts_get_login(args) {
                Some(login) => PreferencesAction::GetUserId(login),
                None => PreferencesAction::Reply(error_reply("Login is not specified", true)),
            },
            _ => PreferencesAction::Reply(
                DiscordCommandResponse::followup_response("Invalid command passed", true),
            ),
        }
    }

    /// After the account lookup: the account whose preferences are to be
    /// removed, or the answer.
    pub fn user_id_found(lookup: Lookup<String>) -> (r: Result<String, DiscordCommandResponse>)
        ensures
            match lookup {
                Lookup::Found(uid) => r == Ok::<String, DiscordCommandResponse>(uid),
                Lookup::Missing => r matches Err(resp) && is_error_reply(
                    resp,
                    "Login is not specified"@,
                    true,
                ),
                Lookup::Failed => r matches Err(resp) && is_logged_error_reply(
                    resp,
                    "Error occurred during UID fetch."@,
                    true,
                ),
            },
    {
        found_or_reply(lookup, "Login is not specified", "Error occurred during UID fetch.", true)
    }

    /// The answer once the removal is done (`deleted`) or has failed.
    pub fn preferences_deleted(deleted: bool) -> (r: DiscordCommandResponse)
        ensures
            deleted ==> is_followup_embed(r, "Success!"@, None, true) && (r->Followup_0.color matches Some(
                c,
            ) && c.value <= 0xFF_FFFF),
            !deleted ==> {
                &&& r matches DiscordCommandResponse::Followup(m)
                &&& m.content@ == "Failed to delete user's preferences. Check server logs for more info."@
                &&& m.embed
                &&& m.error_id matches Some(id) && id@.len() == 36
                &&& m.color == Some(Color { value: 0xE7_4C3C })
                &&& m.ephemeral
            },
    {
        if deleted {
            DiscordCommandResponse::followup_embed_response(
                "Success!",
                None,
                Some(gen_random_color()),
                true,
            )
        } else {
            let id = new_error_id();
            DiscordCommandResponse::followup_embed_response(
                "Failed to delete user's preferences. Check server logs for more info.",
                Some(id.as_str()),
                Some(palette_red()),
                true,
            )
        }
    }
}

} // verus!
