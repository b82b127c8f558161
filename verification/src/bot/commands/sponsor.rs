//! `/give-sponsor <user> <role> [duration]`: grants a sponsor role, for good
//! or until a moment in time.
//!
//! `SponsorCommand::request` reads the invocation, `expiry` fixes when the
//! sponsorship ends, and `grant_reply` words the answer once the sponsorship
//! is stored and the role was (or could not yet be) given; storing it and
//! giving the role is done by whoever runs the command.

use vstd::prelude::*;
use vstd::string::StringExecFns;

use crate::decimal::{
    decimal_text, format_i64, format_u64, lemma_parse_u64_of_decimal_text, parse_u64,
    signed_decimal_text, spec_parse_u64,
};
use crate::utils::{gen_random_color, parse_duration_secs, spec_parse_duration_secs, trim, trim_whitespace};

use super::{
    error_reply, extract_string_arg, extract_user_arg, is_described, is_error_reply,
    is_followup_embed, is_logged_error_reply, is_option, logged_error_reply, pairs_view,
    string_arg, unwrap_or_reply, user_arg, CommandOption, CommandSpec, DiscordCommandDefinition,
    DiscordCommandResponse, OptionKind, OptionSpec,
};

verus! {

/// A well-formed grant request.
#[derive(Debug)]
pub struct SponsorRequest {
    /// The user to grant the role to.
    pub user_id: u64,
    /// The role as it was chosen (the text of its id).
    pub role_id: String,
    /// The role's id.
    pub role: u64,
    /// How long the sponsorship lasts, in seconds; `None` is for good.
    pub duration_secs: Option<i64>,
}

/// The duration given to an invocation: `None` when there is none (or only
/// whitespace), otherwise what the trimmed text reads as.
pub open spec fn duration_arg(opts: Seq<CommandOption>) -> Option<Option<i64>> {
    match string_arg(opts, "duration"@) {
        Some(raw) => if trim_whitespace(raw@).len() == 0 {
            None
        } else {
            Some(spec_parse_duration_secs(trim_whitespace(raw@)))
        },
        None => None,
    }
}

/// The text of the answer once the role is granted.
pub open spec fn grant_text(
    role_id: Seq<char>,
    discord_id: Seq<char>,
    expires_at: Option<i64>,
    granted: bool,
) -> Seq<char> {
    let note = if granted {
        "The role has been assigned."@
    } else {
        "The role will be assigned automatically once the user is on the server."@
    };
    match expires_at {
        Some(ts) => {
            let t = signed_decimal_text(ts as int);
            "✅ Granted <@&"@ + role_id + "> to <@"@ + discord_id + ">.\n⏳ Active until <t:"@ + t
                + ":F> (<t:"@ + t + ":R>).\n"@ + note
        },
        None => "✅ Granted **permanent** <@&"@ + role_id + "> to <@"@ + discord_id + ">.\n"@
            + note,
    }
}

/// `s` ends with `suffix`.
pub open spec fn ends_with(s: Seq<char>, suffix: Seq<char>) -> bool {
    s.len() >= suffix.len() && s.subrange(s.len() - suffix.len(), s.len() as int) == suffix
}

/// The grant message ends by saying whether the role was given right away:
/// "The role has been assigned." exactly when it was, whether the
/// sponsorship is permanent or not; otherwise it says the role will follow
/// once the user is on the server. Apart from that last sentence the message
/// is the same either way.
pub proof fn lemma_grant_note_follows_granted(
    role_id: Seq<char>,
    discord_id: Seq<char>,
    expires_at: Option<i64>,
)
    ensures
        ends_with(grant_text(role_id, discord_id, expires_at, true), "The role has been assigned."@),
        ends_with(
            grant_text(role_id, discord_id, expires_at, false),
            "The role will be assigned automatically once the user is on the server."@,
        ),
        !ends_with(grant_text(role_id, discord_id, expires_at, false), "The role has been assigned."@),
        grant_text(role_id, discord_id, expires_at, true).subrange(
            0,
            grant_text(role_id, discord_id, expires_at, true).len() - "The role has been assigned."@.len(),
        ) == grant_text(role_id, discord_id, expires_at, false).subrange(
            0,
            grant_text(role_id, discord_id, expires_at, false).len()
                - "The role will be assigned automatically once the user is on the server."@.len(),
        ),
{
    let yes = "The role has been assigned."@;
    let no = "The role will be assigned automatically once the user is on the server."@;
    let head: Seq<char> = match expires_at {
        Some(ts) => {
            let t = signed_decimal_text(ts as int);
            "✅ Granted <@&"@ + role_id + "> to <@"@ + discord_id + ">.\n⏳ Active until <t:"@ + t
                + ":F> (<t:"@ + t + ":R>).\n"@
        },
        None => "✅ Granted **permanent** <@&"@ + role_id + "> to <@"@ + discord_id + ">.\n"@,
    };
    let a = grant_text(role_id, discord_id, expires_at, true);
    let b = grant_text(role_id, discord_id, expires_at, false);
    assert(a == head + yes);
    assert(b == head + no);
    assert((head + yes).subrange(head.len() as int, (head + yes).len() as int) =~= yes);
    assert((head + no).subrange(head.len() as int, (head + no).len() as int) =~= no);
    assert((head + yes).subrange(0, head.len() as int) =~= head);
    assert((head + no).subrange(0, head.len() as int) =~= head);
    reveal_strlit("The role has been assigned.");
    reveal_strlit("The role will be assigned automatically once the user is on the server.");
    let tail = b.subrange(b.len() - yes.len(), b.len() as int);
    assert(tail =~= no.subrange(no.len() - yes.len(), no.len() as int));
    assert(tail[0] != yes[0]);
}

/// The choices offered for the role: each configured role, shown by name,
/// standing for its id.
pub open spec fn role_choices(roles: Seq<(String, u64)>) -> Seq<(Seq<char>, Seq<char>)> {
    roles.map_values(|r: (String, u64)| (r.0@, decimal_text(r.1 as nat)))
}

/// Every role the registration offers is read back by `request` as the id it
/// was configured with: the value of each choice is that id's text.
pub proof fn lemma_offered_roles_read_back(roles: Seq<(String, u64)>, i: int)
    requires
        0 <= i < roles.len(),
    ensures
        spec_parse_u64(role_choices(roles)[i].1) == Some(roles[i].1),
{
    lemma_parse_u64_of_decimal_text(roles[i].1);
}

#[derive(Debug)]
pub struct SponsorCommand;

impl SponsorCommand {
    /// Registered for the configured guilds, answered with a private
    /// deferred reply.
    pub fn definition(&self) -> (d: DiscordCommandDefinition)
        ensures
            d.name@ == "give-sponsor"@,
            !d.is_global,
            d.is_deferred,
            d.is_ephemeral,
    {
        DiscordCommandDefinition::new_local("give-sponsor", true, true)
    }

    /// How the command is described to Discord: a required user, a required
    /// role chosen among the configured `roles`, and an optional duration;
    /// shown by default only to webhook managers.
    pub fn registration(&self, roles: &Vec<(String, u64)>) -> (c: CommandSpec)
        ensures
            c.name@ == "give-sponsor"@,
            c.description@ == "Grants a sponsor role to a user"@,
            pairs_view(c.name_localizations@) == seq![("ru"@, "выдать-спонсорку"@)],
            pairs_view(c.description_localizations@) == seq![
                ("ru"@, "Выдаёт пользователю роль спонсора"@),
            ],
            c.manage_webhooks_only,
            c.options@.len() == 3,
            is_option(c.options@[0], OptionKind::User, "user"@, true, 0),
            c.options@[1].kind == OptionKind::String,
            c.options@[1].name@ == "role"@,
            c.options@[1].required,
            c.options@[1].options@.len() == 0,
            pairs_view(c.options@[1].choices@) == role_choices(roles@),
            is_option(c.options@[2], OptionKind::String, "duration"@, false, 0),
            is_described(
                c.options@[0],
                "User to grant sponsor to"@,
                Some("пользователь"@),
                Some("Пользователь, которому выдать спонсорку"@),
            ),
            is_described(
                c.options@[1],
                "Which sponsor role to grant"@,
                Some("роль"@),
                Some("Какую роль спонсора выдать"@),
            ),
            is_described(
                c.options@[2],
                "How long it lasts (e.g. 30d, 12h, 1w, 1h30m). Empty = forever"@,
                Some("срок"@),
                Some("Срок действия (например 30d, 12h, 1w, 1h30m). Пусто = навсегда"@),
            ),
    {
        let mut role_option = OptionSpec::new(
            OptionKind::String,
            "role",
            "Which sponsor role to grant",
        ).name_localized("ru", "роль").description_localized("ru", "Какую роль спонсора выдать").required(true);
        for i in 0..roles.len()
            invariant
                role_option.kind == OptionKind::String,
                role_option.name@ == "role"@,
                role_option.required,
                role_option.options@.len() == 0,
                is_described(
                    role_option,
                    "Which sponsor role to grant"@,
                    Some("роль"@),
                    Some("Какую роль спонсора выдать"@),
                ),
                pairs_view(role_option.choices@) == role_choices(roles@.take(i as int)),
        {
            let ghost before = role_option.choices@;
            let (name, id) = &roles[i];
            role_option = role_option.add_string_choice(name.clone(), format_u64(*id));
            assert(roles@.take(i + 1) =~= roles@.take(i as int).push(roles@[i as int]));
            assert(pairs_view(role_option.choices@) =~= pairs_view(before).push(
                (name@, decimal_text(*id as nat)),
            ));
            assert(role_choices(roles@.take(i + 1)) =~= role_choices(roles@.take(i as int)).push(
                (name@, decimal_text(*id as nat)),
            ));
        }
        assert(roles@.take(roles.len() as int) =~= roles@);
        let c = CommandSpec::new("give-sponsor").name_localized("ru", "выдать-спонсорку").description(
            "Grants a sponsor role to a user",
        ).description_localized("ru", "Выдаёт пользователю роль спонсора").restrict_to_webhook_managers().add_option(
            OptionSpec::new(OptionKind::User, "user", "User to grant sponsor to").name_localized(
                "ru",
                "пользователь",
            ).description_localized("ru", "Пользователь, которому выдать спонсорку").required(true),
        ).add_option(role_option).add_option(
            OptionSpec::new(
                OptionKind::String,
                "duration",
                "How long it lasts (e.g. 30d, 12h, 1w, 1h30m). Empty = forever",
            ).name_localized("ru", "срок").description_localized(
                "ru",
                "Срок действия (например 30d, 12h, 1w, 1h30m). Пусто = навсегда",
            ).required(false),
        );
        assert(pairs_view(c.name_localizations@) =~= seq![("ru"@, "выдать-спонсорку"@)]);
        assert(pairs_view(c.description_localizations@) =~= seq![
            ("ru"@, "Выдаёт пользователю роль спонсора"@),
        ]);
        c
    }

    /// Reads the invocation: the user, the role (whose id must be a number)
    /// and the optional duration (`30d`, `12h`, `1w`, `1h30m`, ...).
    pub fn request(opts: &Vec<CommandOption>) -> (r: Result<SponsorRequest, DiscordCommandResponse>)
        ensures
            match (user_arg(opts@, "user"@), string_arg(opts@, "role"@)) {
                (None, _) => r matches Err(resp) && is_error_reply(
                    resp,
                    "User is not specified"@,
                    true,
                ),
                (Some(_), None) => r matches Err(resp) && is_error_reply(
                    resp,
                    "Role is not specified"@,
                    true,
                ),
                (Some(user), Some(role_id)) => match spec_parse_u64(role_id@) {
                    None => r matches Err(resp) && is_error_reply(
                        resp,
                        "The selected role is invalid."@,
                        true,
                    ),
                    Some(role) => match duration_arg(opts@) {
                        Some(None) => r matches Err(resp) && is_error_reply(
                            resp,
                            "Invalid duration format. Use e.g. `30d`, `12h`, `1w`, or leave it empty for a permanent sponsorship."@,
                            true,
                        ),
                        Some(Some(secs)) => r == Ok::<SponsorRequest, DiscordCommandResponse>(
                            SponsorRequest { user_id: user, role_id, role, duration_secs: Some(secs) },
                        ),
                        None => r == Ok::<SponsorRequest, DiscordCommandResponse>(
                            SponsorRequest { user_id: user, role_id, role, duration_secs: None },
                        ),
                    },
                },
            },
    {
        let user_id = unwrap_or_reply(extract_user_arg(opts, "user"), "User is not specified", true)?;
        let role_id = unwrap_or_reply(extract_string_arg(opts, "role"), "Role is not specified", true)?;
        let role = unwrap_or_reply(parse_u64(role_id.as_str()), "The selected role is invalid.", true)?;
        let duration_secs = match extract_string_arg(opts, "duration") {
            Some(raw) => {
                let trimmed = trim(raw.as_str());
                if trimmed.as_str().is_empty() {
                    None
                } else {
                    match parse_duration_secs(trimmed.as_str()) {
                        Some(secs) => Some(secs),
                        None => {
                            return Err(
                                error_reply(
                                    "Invalid duration format. Use e.g. `30d`, `12h`, `1w`, or leave it empty for a permanent sponsorship.",
                                    true,
                                ),
                            );
                        },
                    }
                }
            },
            None => None,
        };
        Ok(SponsorRequest { user_id, role_id, role, duration_secs })
    }

    /// When a sponsorship granted at `now` for `duration_secs` ends.
    pub fn expiry(now: i64, duration_secs: Option<i64>) -> (r: Option<i64>)
        requires
            duration_secs matches Some(d) ==> i64::MIN <= now + d <= i64::MAX,
        ensures
            r == (match duration_secs {
                Some(d) => Some((now + d) as i64),
                None => None::<i64>,
            }),
    {
        match duration_secs {
            Some(d) => Some(now + d),
            None => None,
        }
    }

    /// The answer when the sponsorship could not be stored.
    pub fn store_failed_reply() -> (r: DiscordCommandResponse)
        ensures
            is_logged_error_reply(
                r,
                "Failed to store the sponsorship. Check server logs for more info."@,
                true,
            ),
    {
        logged_error_reply("Failed to store the sponsorship. Check server logs for more info.", true)
    }

    /// The text of the answer once the sponsorship is stored; `granted` says
    /// whether the role could be given in at least one guild right away.
    pub fn grant_message(role_id: &str, user_id: u64, expires_at: Option<i64>, granted: bool) -> (r:
        String)
        ensures
            r@ == grant_text(role_id@, decimal_text(user_id as nat), expires_at, granted),
    {
        let discord_id = format_u64(user_id);
        let note = if granted {
            "The role has been assigned."
        } else {
            "The role will be assigned automatically once the user is on the server."
        };
        match expires_at {
            Some(ts) => {
                let t = format_i64(ts);
                let mut out = String::from_str("✅ Granted <@&");
                out.append(role_id);
                out.append("> to <@");
                out.append(discord_id.as_str());
                out.append(">.\n⏳ Active until <t:");
                out.append(t.as_str());
                out.append(":F> (<t:");
                out.append(t.as_str());
                out.append(":R>).\n");
                out.append(note);
                out
            },
            None => {
                let mut out = String::from_str("✅ Granted **permanent** <@&");
                out.append(role_id);
                out.append("> to <@");
                out.append(discord_id.as_str());
                out.append(">.\n");
                out.append(note);
                out
            },
        }
    }

    /// The answer once the sponsorship is stored.
    pub fn grant_reply(role_id: &str, user_id: u64, expires_at: Option<i64>, granted: bool) -> (r:
        DiscordCommandResponse)
        ensures
            is_followup_embed(
                r,
                grant_text(role_id@, decimal_text(user_id as nat), expires_at, granted),
                None,
                true,
            ),
            r->Followup_0.color matches Some(c) && c.value <= 0xFF_FFFF,
    {
        let message = Self::grant_message(role_id, user_id, expires_at, granted);
        DiscordCommandResponse::followup_embed_response(
            message.as_str(),
            None,
            Some(gen_random_color()),
            true,
        )
    }
}

} // verus!
