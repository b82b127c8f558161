//! `/link`: shows and removes the links between Discord accounts and SS14
//! accounts.
//!
//! Answering takes several lookups in a row. `LinkCommand::start` reads the
//! invocation and `LinkCommand::step` decides, from what the last lookup
//! returned, which lookup comes next or how to answer; whoever runs the
//! command performs the lookups.

use vstd::prelude::*;
use vstd::string::StringExecFns;

use crate::decimal::{decimal_text, format_u64, parse_u64, spec_parse_u64};
use crate::utils::gen_random_color;

use super::{
    found_or_reply, is_described, is_error_reply, is_followup_embed,
    is_followup_text, is_logged_error_reply, is_option, new_error_id, pairs_view, text_eq,
    CommandOption, CommandSpec, DiscordCommandDefinition, DiscordCommandResponse, Lookup,
    OptionKind, OptionSpec, OptionValue, unwrap_or_reply,
};

verus! {

/// The part of `/link` that was invoked.
#[allow(inconsistent_fields)]
#[derive(Debug)]
pub enum LinkSubCommand {
    Discord { command: LinkDiscordSubCommand },
    SS14 { command: LinkSS14SubCommand },
}

/// `/link discord ...`, about a Discord user (by id).
#[derive(Debug)]
pub enum LinkDiscordSubCommand {
    Status(u64),
    Unlink(u64),
}

/// `/link ss14 ...`, about an in-game login.
#[derive(Debug)]
pub enum LinkSS14SubCommand {
    Status(String),
    Unlink(String),
}

/// What one top-level option of an invocation says.
pub enum GroupOutcome {
    /// Not a usable sub-command; the next option is looked at.
    Skip,
    /// A sub-command without its argument: the invocation is rejected.
    Stop,
    Found(LinkSubCommand),
}

/// What the option `g` says (see `GroupOutcome`).
pub open spec fn group_outcome(g: CommandOption) -> GroupOutcome {
    let is_discord = g.name@ == "discord"@;
    if !(g.value is SubCommandGroup) || !(is_discord || g.name@ == "ss14"@) {
        GroupOutcome::Skip
    } else {
        let subs = g.value->SubCommandGroup_0@;
        if subs.len() == 0 {
            GroupOutcome::Stop
        } else if !(subs[0].value is SubCommand) {
            GroupOutcome::Skip
        } else {
            let sub_name = subs[0].name@;
            let args = subs[0].value->SubCommand_0@;
            let is_status = sub_name == "status"@;
            if !(is_status || sub_name == "unlink"@) {
                GroupOutcome::Skip
            } else if args.len() == 0 {
                GroupOutcome::Stop
            } else if is_discord {
                match args[0].value {
                    OptionValue::User(id) => GroupOutcome::Found(
                        LinkSubCommand::Discord {
                            command: if is_status {
                                LinkDiscordSubCommand::Status(id)
                            } else {
                                LinkDiscordSubCommand::Unlink(id)
                            },
                        },
                    ),
                    _ => GroupOutcome::Skip,
                }
            } else {
                match args[0].value {
                    OptionValue::String(login) => GroupOutcome::Found(
                        LinkSubCommand::SS14 {
                            command: if is_status {
                                LinkSS14SubCommand::Status(login)
                            } else {
                                LinkSS14SubCommand::Unlink(login)
                            },
                        },
                    ),
                    _ => GroupOutcome::Skip,
                }
            }
        }
    }
}

/// The sub-command of an invocation: what the first option that is not
/// skipped says.
pub open spec fn link_command_of(opts: Seq<CommandOption>) -> Option<LinkSubCommand>
    decreases opts.len(),
{
    if opts.len() == 0 {
        None
    } else {
        match group_outcome(opts[0]) {
            GroupOutcome::Skip => link_command_of(opts.drop_first()),
            GroupOutcome::Stop => None,
            GroupOutcome::Found(c) => Some(c),
        }
    }
}

/// Reads the sub-command out of the options of a `/link` invocation:
/// `discord status|unlink <user>` or `ss14 status|unlink <login>`.
pub fn map_command(opts: &Vec<CommandOption>) -> (r: Option<LinkSubCommand>)
    ensures
        r == link_command_of(opts@),
{
    let mut i: usize = 0;
    assert(opts@.skip(0) =~= opts@);
    while i < opts.len()
        invariant
            i <= opts.len(),
            link_command_of(opts@) == link_command_of(opts@.skip(i as int)),
        decreases opts.len() - i,
    {
        assert(opts@.skip(i as int).drop_first() =~= opts@.skip(i + 1));
        assert(opts@.skip(i as int)[0] == opts@[i as int]);
        let group = &opts[i];
        i = i + 1;
        let is_discord = text_eq(group.name.as_str(), "discord");
        if !is_discord && !text_eq(group.name.as_str(), "ss14") {
            continue;
        }
        let group_opts = match &group.value {
            OptionValue::SubCommandGroup(o) => o,
            _ => {
                continue;
            },
        };
        if group_opts.len() == 0 {
            return None;
        }
        let sub = &group_opts[0];
        let sub_opts = match &sub.value {
            OptionValue::SubCommand(o) => o,
            _ => {
                continue;
            },
        };
        let is_status = text_eq(sub.name.as_str(), "status");
        if !is_status && !text_eq(sub.name.as_str(), "unlink") {
            continue;
        }
        if sub_opts.len() == 0 {
            return None;
        }
        let arg = &sub_opts[0];
        if is_discord {
            match &arg.value {
                OptionValue::User(id) => {
                    let command = if is_status {
                        LinkDiscordSubCommand::Status(*id)
                    } else {
                        LinkDiscordSubCommand::Unlink(*id)
                    };
                    return Some(LinkSubCommand::Discord { command });
                },
                _ => {
                    continue;
                },
            }
        } else {
            match &arg.value {
                OptionValue::String(login) => {
                    let login = login.clone();
                    let command = if is_status {
                        LinkSS14SubCommand::Status(login)
                    } else {
                        LinkSS14SubCommand::Unlink(login)
                    };
                    return Some(LinkSubCommand::SS14 { command });
                },
                _ => {
                    continue;
                },
            }
        }
    }
    None
}

/// What an invocation is waiting for.
#[derive(Debug)]
pub enum LinkState {
    /// The SS14 account linked to a Discord user (given by id text).
    DiscordStatusAccount { discord_id: String },
    /// The login of that SS14 account.
    DiscordStatusLogin { discord_id: String },
    /// The extra data of the player with this login.
    StatusExtraData { login: String },
    /// The SS14 account with this login.
    SS14StatusAccount { login: String },
    /// The Discord user linked to the SS14 account of this login.
    SS14StatusDiscord { login: String },
    /// The SS14 account whose link is to be removed.
    SS14UnlinkAccount,
    /// The removal of a link.
    Unlinking,
}

/// What to do next.
#[derive(Debug)]
pub enum LinkAction {
    /// Look up the SS14 account linked to a Discord user id.
    GetUserIdFromDiscord(String),
    /// Look up the login of an SS14 account.
    GetLogin(String),
    /// Fetch the formatted extra data of a Discord user id.
    GetExtraData(String),
    /// Remove the link found under `key` of the given kind (`discord`/`uid`).
    DeleteRecord { kind: String, key: String },
    /// Look up the SS14 account of a login.
    GetUserId(String),
    /// Look up the Discord user linked to an SS14 account.
    GetDiscordId(String),
    /// Answer; the invocation is done.
    Reply(DiscordCommandResponse),
}

/// The next state (none once the invocation is answered) and action.
#[derive(Debug)]
pub struct LinkStep {
    pub state: Option<LinkState>,
    pub action: LinkAction,
}

/// `s` waits for `state` and asks for `action`.
pub open spec fn is_lookup_step(s: LinkStep, state: LinkState, action: LinkAction) -> bool {
    s.state == Some(state) && s.action == action
}

/// `s` answers with an error reply with the given text.
pub open spec fn is_error_step(s: LinkStep, text: Seq<char>) -> bool {
    &&& s.state is None
    &&& s.action matches LinkAction::Reply(r) && is_error_reply(r, text, true)
}

/// `s` answers with a logged error reply with the given text.
pub open spec fn is_logged_error_step(s: LinkStep, text: Seq<char>) -> bool {
    &&& s.state is None
    &&& s.action matches LinkAction::Reply(r) && is_logged_error_reply(r, text, true)
}

/// `s` answers with a plain private follow-up with the given text.
pub open spec fn is_text_step(s: LinkStep, text: Seq<char>) -> bool {
    &&& s.state is None
    &&& s.action matches LinkAction::Reply(r) && is_followup_text(r, text, true)
}

/// Whatever `s` answers, it answers with a follow-up only the invoking user
/// sees (the command is deferred and private).
pub open spec fn replies_privately(s: LinkStep) -> bool {
    s.action matches LinkAction::Reply(r) ==> (r matches DiscordCommandResponse::Followup(m)
        && m.ephemeral)
}

/// The answer to a status request.
pub open spec fn status_text(login: Seq<char>, extra_data: Seq<char>) -> Seq<char> {
    "🧑‍🚀 **In-Game Login:** `"@ + login + "`\n🧾 **Extra Data:** \n"@ + extra_data
}

/// The answer when removing a link failed.
pub open spec fn unlink_failed_text(error_id: Seq<char>) -> Seq<char> {
    "Error occurred while trying to delete record.\nError ID: "@ + error_id
}

/// The event fits the state: extra data is either fetched or not.
pub open spec fn link_event_fits(state: LinkState, event: Lookup<String>) -> bool {
    &&& state is StatusExtraData ==> !(event is Missing)
    &&& state is SS14StatusDiscord ==> (event matches Lookup::Found(id) ==> (spec_parse_u64(
        id@,
    ) matches Some(v) && v != 0))
}

/// What the registration of `/link` says: two groups, `discord` and `ss14`,
/// each with a `status` sub-command (whose argument is required) and an
/// `unlink` one, about a user and about a login respectively.
pub open spec fn is_link_registration(c: CommandSpec) -> bool {
    &&& c.name@ == "link"@
    &&& c.description@ == "Operates with discord and SS14 links"@
    &&& pairs_view(c.name_localizations@) == seq![("ru"@, "привязка"@)]
    &&& c.description_localizations@.len() == 0
    &&& !c.manage_webhooks_only
    &&& c.options@.len() == 2
    &&& is_option(c.options@[0], OptionKind::SubCommandGroup, "discord"@, false, 2)
    &&& is_option(c.options@[0].options@[0], OptionKind::SubCommand, "status"@, false, 1)
    &&& is_option(c.options@[0].options@[0].options@[0], OptionKind::User, "user"@, true, 0)
    &&& is_option(c.options@[0].options@[1], OptionKind::SubCommand, "unlink"@, false, 1)
    &&& is_option(c.options@[0].options@[1].options@[0], OptionKind::User, "user"@, false, 0)
    &&& is_option(c.options@[1], OptionKind::SubCommandGroup, "ss14"@, false, 2)
    &&& is_option(c.options@[1].options@[0], OptionKind::SubCommand, "status"@, false, 1)
    &&& is_option(c.options@[1].options@[0].options@[0], OptionKind::String, "login"@, true, 0)
    &&& is_option(c.options@[1].options@[1], OptionKind::SubCommand, "unlink"@, false, 1)
    &&& is_option(c.options@[1].options@[1].options@[0], OptionKind::String, "login"@, false, 0)
    &&& is_described(
        c.options@[0],
        "Groups all discord interactions with the link"@,
        Some("дискорд"@),
        Some("Группирует все дискорд взаимодействия с привязкой"@),
    )
    &&& is_described(
        c.options@[0].options@[0],
        "Displays the status of the link"@,
        Some("статус"@),
        Some("Показывает статус привязки"@),
    )
    &&& is_described(c.options@[0].options@[0].options@[0], "User to get link of"@, None, None)
    &&& is_described(
        c.options@[0].options@[1],
        "Unlinks specific user"@,
        Some("отвязать"@),
        Some("Отвязывает пользователя"@),
    )
    &&& is_described(
        c.options@[0].options@[1].options@[0],
        "User to unlink"@,
        Some("пользователь"@),
        Some("Пользователь, которого отвязать"@),
    )
    &&& is_described(
        c.options@[1],
        "Groups all ss14 interactions to the link"@,
        Some("игра"@),
        Some("Группирует все ин-гейм взаимодействия с привязкой"@),
    )
    &&& is_described(
        c.options@[1].options@[0],
        "Displays the status of the link"@,
        Some("статус"@),
        Some("Показывает статус привязки"@),
    )
    &&& is_described(
        c.options@[1].options@[0].options@[0],
        "In-Game Login"@,
        Some("логин"@),
        Some("Внутриигровой логин"@),
    )
    &&& is_described(
        c.options@[1].options@[1],
        "Unlinks specific user"@,
        Some("отвязать"@),
        Some("Отвязывает пользователя"@),
    )
    &&& is_described(
        c.options@[1].options@[1].options@[0],
        "Login to unlink"@,
        Some("логин"@),
        Some("Логин пользователя, которого отвязать"@),
    )
}

/// The value is of the given kind.
pub open spec fn value_has_kind(v: OptionValue, kind: OptionKind) -> bool {
    match kind {
        OptionKind::SubCommandGroup => v is SubCommandGroup,
        OptionKind::SubCommand => v is SubCommand,
        OptionKind::User => v is User,
        OptionKind::String => v is String,
    }
}

/// Every invocation in a shape the registration declares is understood: when
/// the first option is a registered group, holding a registered sub-command
/// whose argument has the registered kind, `map_command` reads exactly that
/// group and sub-command.
pub proof fn lemma_registered_invocations_are_understood(
    reg: CommandSpec,
    opts: Seq<CommandOption>,
    group: int,
    sub: int,
)
    requires
        is_link_registration(reg),
        0 <= group < 2,
        0 <= sub < 2,
        opts.len() > 0,
        opts[0].name@ == reg.options@[group].name@,
        opts[0].value is SubCommandGroup,
        opts[0].value->SubCommandGroup_0@.len() > 0,
        opts[0].value->SubCommandGroup_0@[0].name@ == reg.options@[group].options@[sub].name@,
        opts[0].value->SubCommandGroup_0@[0].value is SubCommand,
        opts[0].value->SubCommandGroup_0@[0].value->SubCommand_0@.len() > 0,
        value_has_kind(
            opts[0].value->SubCommandGroup_0@[0].value->SubCommand_0@[0].value,
            reg.options@[group].options@[sub].options@[0].kind,
        ),
    ensures
        match link_command_of(opts) {
            Some(LinkSubCommand::Discord { command }) => group == 0 && (sub == 0
                <==> command is Status),
            Some(LinkSubCommand::SS14 { command }) => group == 1 && (sub == 0
                <==> command is Status),
            None => false,
        },
{
    reveal_strlit("discord");
    reveal_strlit("ss14");
    reveal_strlit("status");
    reveal_strlit("unlink");
    assert("discord"@.len() != "ss14"@.len());
    assert("status"@[0] != "unlink"@[0]);
    assert("discord"@ != "ss14"@);
    assert("status"@ != "unlink"@);
    let subs = opts[0].value->SubCommandGroup_0@;
    let args = subs[0].value->SubCommand_0@;
    if group == 0 {
        assert(opts[0].name@ == "discord"@);
    } else {
        assert(opts[0].name@ == "ss14"@);
    }
    if sub == 0 {
        assert(subs[0].name@ == "status"@);
    } else {
        assert(subs[0].name@ == "unlink"@);
    }
    assert(link_command_of(opts) == match group_outcome(opts[0]) {
        GroupOutcome::Skip => link_command_of(opts.drop_first()),
        GroupOutcome::Stop => None,
        GroupOutcome::Found(c) => Some(c),
    });
}

/// `/link discord status|unlink <user>` is read as that sub-command about
/// exactly the user given: when the first option is the `discord` group whose
/// first sub-command is `status` (or `unlink`) with the user `id` as its first
/// argument, the invocation is `Status(id)` (or `Unlink(id)`).
pub proof fn lemma_discord_invocation_keeps_user(
    opts: Seq<CommandOption>,
    subs: Vec<CommandOption>,
    args: Vec<CommandOption>,
    status: bool,
    id: u64,
)
    requires
        opts.len() > 0,
        opts[0].name@ == "discord"@,
        opts[0].value == OptionValue::SubCommandGroup(subs),
        subs@.len() > 0,
        subs@[0].name@ == (if status { "status"@ } else { "unlink"@ }),
        subs@[0].value == OptionValue::SubCommand(args),
        args@.len() > 0,
        args@[0].value == OptionValue::User(id),
    ensures
        link_command_of(opts) == Some(
            LinkSubCommand::Discord {
                command: if status {
                    LinkDiscordSubCommand::Status(id)
                } else {
                    LinkDiscordSubCommand::Unlink(id)
                },
            },
        ),
{
    reveal_strlit("discord");
    reveal_strlit("ss14");
    reveal_strlit("status");
    reveal_strlit("unlink");
    assert("discord"@.len() != "ss14"@.len());
    assert("status"@[0] != "unlink"@[0]);
    assert(group_outcome(opts[0]) == GroupOutcome::Found(
        LinkSubCommand::Discord {
            command: if status {
                LinkDiscordSubCommand::Status(id)
            } else {
                LinkDiscordSubCommand::Unlink(id)
            },
        },
    ));
}

/// `/link ss14 status|unlink <login>` is read as that sub-command about
/// exactly the login given.
pub proof fn lemma_ss14_invocation_keeps_login(
    opts: Seq<CommandOption>,
    subs: Vec<CommandOption>,
    args: Vec<CommandOption>,
    status: bool,
    login: String,
)
    requires
        opts.len() > 0,
        opts[0].name@ == "ss14"@,
        opts[0].value == OptionValue::SubCommandGroup(subs),
        subs@.len() > 0,
        subs@[0].name@ == (if status { "status"@ } else { "unlink"@ }),
        subs@[0].value == OptionValue::SubCommand(args),
        args@.len() > 0,
        args@[0].value == OptionValue::String(login),
    ensures
        link_command_of(opts) == Some(
            LinkSubCommand::SS14 {
                command: if status {
                    LinkSS14SubCommand::Status(login)
                } else {
                    LinkSS14SubCommand::Unlink(login)
                },
            },
        ),
{
    reveal_strlit("discord");
    reveal_strlit("ss14");
    reveal_strlit("status");
    reveal_strlit("unlink");
    assert("discord"@.len() != "ss14"@.len());
    assert("status"@[0] != "unlink"@[0]);
    assert(group_outcome(opts[0]) == GroupOutcome::Found(
        LinkSubCommand::SS14 {
            command: if status {
                LinkSS14SubCommand::Status(login)
            } else {
                LinkSS14SubCommand::Unlink(login)
            },
        },
    ));
}

#[derive(Debug)]
pub struct LinkCommand;

impl LinkCommand {
    /// Registered globally, answered with a private deferred reply.
    pub fn definition(&self) -> (d: DiscordCommandDefinition)
        ensures
            d.name@ == "link"@,
            d.is_global,
            d.is_deferred,
            d.is_ephemeral,
    {
        DiscordCommandDefinition::new_global("link", true, true)
    }

    /// How the command is described to Discord: two groups, `discord` and
    /// `ss14`, each with a `status` sub-command (whose argument is required)
    /// and an `unlink` one, about a user and about a login respectively.
    pub fn registration(&self) -> (c: CommandSpec)
        ensures
            is_link_registration(c),
    {
        let discord_status = OptionSpec::new(
            OptionKind::SubCommand,
            "status",
            "Displays the status of the link",
        ).name_localized("ru", "статус").description_localized("ru", "Показывает статус привязки").add_sub_option(
            OptionSpec::new(OptionKind::User, "user", "User to get link of").required(true),
        );
        let discord_unlink = OptionSpec::new(
            OptionKind::SubCommand,
            "unlink",
            "Unlinks specific user",
        ).name_localized("ru", "отвязать").description_localized("ru", "Отвязывает пользователя").add_sub_option(
            OptionSpec::new(OptionKind::User, "user", "User to unlink").name_localized(
                "ru",
                "пользователь",
            ).description_localized("ru", "Пользователь, которого отвязать"),
        );
        let discord = OptionSpec::new(
            OptionKind::SubCommandGroup,
            "discord",
            "Groups all discord interactions with the link",
        ).name_localized("ru", "дискорд").description_localized(
            "ru",
            "Группирует все дискорд взаимодействия с привязкой",
        ).add_sub_option(discord_status).add_sub_option(discord_unlink);
        let ss14_status = OptionSpec::new(
            OptionKind::SubCommand,
            "status",
            "Displays the status of the link",
        ).name_localized("ru", "статус").description_localized("ru", "Показывает статус привязки").add_sub_option(
            OptionSpec::new(OptionKind::String, "login", "In-Game Login").name_localized(
                "ru",
                "логин",
            ).description_localized("ru", "Внутриигровой логин").required(true),
        );
        let ss14_unlink = OptionSpec::new(
            OptionKind::SubCommand,
            "unlink",
            "Unlinks specific user",
        ).name_localized("ru", "отвязать").description_localized("ru", "Отвязывает пользователя").add_sub_option(
            OptionSpec::new(OptionKind::String, "login", "Login to unlink").name_localized(
                "ru",
                "логин",
            ).description_localized("ru", "Логин пользователя, которого отвязать"),
        );
        let ss14 = OptionSpec::new(
            OptionKind::SubCommandGroup,
            "ss14",
            "Groups all ss14 interactions to the link",
        ).name_localized("ru", "игра").description_localized(
            "ru",
            "Группирует все ин-гейм взаимодействия с привязкой",
        ).add_sub_option(ss14_status).add_sub_option(ss14_unlink);
        let c = CommandSpec::new("link").name_localized("ru", "привязка").description(
            "Operates with discord and SS14 links",
        ).add_option(discord).add_option(ss14);
        assert(pairs_view(c.name_localizations@) =~= seq![("ru"@, "привязка"@)]);
        c
    }

    /// The first step of an invocation.
    pub fn start(opts: &Vec<CommandOption>) -> (s: LinkStep)
        ensures
            replies_privately(s),
            match link_command_of(opts@) {
                None => is_error_step(s, "No command supplied"@),
                Some(LinkSubCommand::Discord { command: LinkDiscordSubCommand::Status(id) }) => {
                    &&& s.state matches Some(LinkState::DiscordStatusAccount { discord_id })
                    &&& discord_id@ == decimal_text(id as nat)
                    &&& s.action matches LinkAction::GetUserIdFromDiscord(d)
                    &&& d@ == decimal_text(id as nat)
                },
                Some(LinkSubCommand::Discord { command: LinkDiscordSubCommand::Unlink(id) }) => {
                    &&& s.state matches Some(LinkState::Unlinking)
                    &&& s.action matches LinkAction::DeleteRecord { kind, key }
                    &&& kind@ == "discord"@
                    &&& key@ == decimal_text(id as nat)
                },
                Some(LinkSubCommand::SS14 { command: LinkSS14SubCommand::Status(login) }) => {
                    is_lookup_step(
                        s,
                        LinkState::SS14StatusAccount { login },
                        LinkAction::GetUserId(login),
                    )
                },
                Some(LinkSubCommand::SS14 { command: LinkSS14SubCommand::Unlink(login) }) => {
                    is_lookup_step(s, LinkState::SS14UnlinkAccount, LinkAction::GetUserId(login))
                },
            },
    {
        let command = match unwrap_or_reply(map_command(opts), "No command supplied", true) {
            Ok(c) => c,
            Err(r) => {
                return LinkStep { state: None, action: LinkAction::Reply(r) };
            },
        };
        match command {
            LinkSubCommand::Discord { command } => match command {
                LinkDiscordSubCommand::Status(id) => LinkStep {
                    state: Some(LinkState::DiscordStatusAccount { discord_id: format_u64(id) }),
                    action: LinkAction::GetUserIdFromDiscord(format_u64(id)),
                },
                LinkDiscordSubCommand::Unlink(id) => LinkStep {
                    state: Some(LinkState::Unlinking),
                    action: LinkAction::DeleteRecord {
                        kind: String::from_str("discord"),
                        key: format_u64(id),
                    },
                },
            },
            LinkSubCommand::SS14 { command } => match command {
                LinkSS14SubCommand::Status(login) => {
                    let account = login.clone();
                    LinkStep {
                        state: Some(LinkState::SS14StatusAccount { login }),
                        action: LinkAction::GetUserId(account),
                    }
                },
                LinkSS14SubCommand::Unlink(login) => LinkStep {
                    state: Some(LinkState::SS14UnlinkAccount),
                    action: LinkAction::GetUserId(login),
                },
            },
        }
    }

    /// Decides what follows from the result of the lookup `state` waited for.
    pub fn step(state: LinkState, event: Lookup<String>) -> (s: LinkStep)
        requires
            link_event_fits(state, event),
        ensures
            replies_privately(s),
            match (state, event) {
                (LinkState::DiscordStatusAccount { discord_id }, Lookup::Found(uid)) => {
                    is_lookup_step(
                        s,
                        LinkState::DiscordStatusLogin { discord_id },
                        LinkAction::GetLogin(uid),
                    )
                },
                (LinkState::DiscordStatusAccount { .. }, Lookup::Missing) => is_error_step(
                    s,
                    "🔍 No linked SS14 account found for this user."@,
                ),
                (LinkState::DiscordStatusAccount { .. }, Lookup::Failed) => is_logged_error_step(
                    s,
                    "❌ An error occurred while fetching UUID."@,
                ),
                (LinkState::DiscordStatusLogin { discord_id }, Lookup::Found(login)) => {
                    is_lookup_step(
                        s,
                        LinkState::StatusExtraData { login },
                        LinkAction::GetExtraData(discord_id),
                    )
                },
                (LinkState::DiscordStatusLogin { .. }, Lookup::Missing) => is_error_step(
                    s,
                    "❔ User has no known in-game login."@,
                ),
                (LinkState::DiscordStatusLogin { .. }, Lookup::Failed) => is_logged_error_step(
                    s,
                    "❌ An error occurred while fetching login."@,
                ),
                (LinkState::StatusExtraData { login }, Lookup::Found(extra)) => {
                    &&& s.state is None
                    &&& s.action matches LinkAction::Reply(r)
                    &&& is_followup_embed(r, status_text(login@, extra@), None, true)
                    &&& r->Followup_0.color matches Some(c) && c.value <= 0xFF_FFFF
                },
                (LinkState::StatusExtraData { .. }, _) => is_logged_error_step(
                    s,
                    "❌ An error occurred while fetching extra data."@,
                ),
                (LinkState::SS14StatusAccount { login }, Lookup::Found(uid)) => is_lookup_step(
                    s,
                    LinkState::SS14StatusDiscord { login },
                    LinkAction::GetDiscordId(uid),
                ),
                (LinkState::SS14StatusAccount { .. }, Lookup::Missing) => is_error_step(
                    s,
                    "User not found"@,
                ),
                (LinkState::SS14StatusAccount { .. }, Lookup::Failed) => is_logged_error_step(
                    s,
                    "Error occured during fetching UserID"@,
                ),
                (LinkState::SS14StatusDiscord { login }, Lookup::Found(discord_id)) => {
                    &&& s.state == Some(LinkState::StatusExtraData { login })
                    &&& s.action matches LinkAction::GetExtraData(d)
                    &&& d@ == decimal_text(spec_parse_u64(discord_id@)->Some_0 as nat)
                },
                (LinkState::SS14StatusDiscord { .. }, Lookup::Missing) => is_error_step(
                    s,
                    "User is not linked"@,
                ),
                (LinkState::SS14StatusDiscord { .. }, Lookup::Failed) => is_logged_error_step(
                    s,
                    "Error occured during fetching discord ID"@,
                ),
                (LinkState::SS14UnlinkAccount, Lookup::Found(uid)) => {
                    &&& s.state == Some(LinkState::Unlinking)
                    &&& s.action matches LinkAction::DeleteRecord { kind, key }
                    &&& kind@ == "uid"@
                    &&& key == uid
                },
                (LinkState::SS14UnlinkAccount, Lookup::Missing) => is_error_step(
                    s,
                    "User not found"@,
                ),
                (LinkState::SS14UnlinkAccount, Lookup::Failed) => is_logged_error_step(
                    s,
                    "Error occured during UserID fetch"@,
                ),
                (LinkState::Unlinking, Lookup::Found(_)) => is_text_step(
                    s,
                    "Successfully unlinked account."@,
                ),
                (LinkState::Unlinking, Lookup::Missing) => is_text_step(
                    s,
                    "No such linked account exist."@,
                ),
                (LinkState::Unlinking, Lookup::Failed) => {
                    &&& s.state is None
                    &&& s.action matches LinkAction::Reply(r)
                    &&& r matches DiscordCommandResponse::Followup(m)
                    &&& !m.embed
                    &&& m.error_id is None
                    &&& m.color is None
                    &&& m.ephemeral
                    &&& exists|id: Seq<char>| id.len() == 36 && m.content@ == #[trigger] unlink_failed_text(id)
                },
            },
    {
        match state {
            LinkState::DiscordStatusAccount { discord_id } => match found_or_reply(
                event,
                "🔍 No linked SS14 account found for this user.",
                "❌ An error occurred while fetching UUID.",
                true,
            ) {
                Ok(uid) => LinkStep {
                    state: Some(LinkState::DiscordStatusLogin { discord_id }),
                    action: LinkAction::GetLogin(uid),
                },
                Err(r) => LinkStep { state: None, action: LinkAction::Reply(r) },
            },
            LinkState::DiscordStatusLogin { discord_id } => match found_or_reply(
                event,
                "❔ User has no known in-game login.",
                "❌ An error occurred while fetching login.",
                true,
            ) {
                Ok(login) => LinkStep {
                    state: Some(LinkState::StatusExtraData { login }),
                    action: LinkAction::GetExtraData(discord_id),
                },
                Err(r) => LinkStep { state: None, action: LinkAction::Reply(r) },
            },
            LinkState::StatusExtraData { login } => match found_or_reply(
                event,
                "❌ An error occurred while fetching extra data.",
                "❌ An error occurred while fetching extra data.",
                true,
            ) {
                Ok(extra) => {
                    let mut text = String::from_str("🧑‍🚀 **In-Game Login:** `");
                    text.append(login.as_str());
                    text.append("`\n🧾 **Extra Data:** \n");
                    text.append(extra.as_str());
                    let reply = DiscordCommandResponse::followup_embed_response(
                        text.as_str(),
                        None,
                        Some(gen_random_color()),
                        true,
                    );
                    LinkStep { state: None, action: LinkAction::Reply(reply) }
                },
                Err(r) => LinkStep { state: None, action: LinkAction::Reply(r) },
            },
            LinkState::SS14StatusAccount { login } => match found_or_reply(
                event,
                "User not found",
                "Error occured during fetching UserID",
                true,
            ) {
                Ok(uid) => LinkStep {
                    state: Some(LinkState::SS14StatusDiscord { login }),
                    action: LinkAction::GetDiscordId(uid),
                },
                Err(r) => LinkStep { state: None, action: LinkAction::Reply(r) },
            },
            LinkState::SS14StatusDiscord { login } => match found_or_reply(
                event,
                "User is not linked",
                "Error occured during fetching discord ID",
                true,
            ) {
                Ok(discord_id) => {
                    // the precondition says the id is a number
                    let id = match parse_u64(discord_id.as_str()) {
                        Some(v) => v,
                        None => 0,
                    };
                    LinkStep {
                        state: Some(LinkState::StatusExtraData { login }),
                        action: LinkAction::GetExtraData(format_u64(id)),
                    }
                },
                Err(r) => LinkStep { state: None, action: LinkAction::Reply(r) },
            },
            LinkState::SS14UnlinkAccount => match found_or_reply(
                event,
                "User not found",
                "Error occured during UserID fetch",
                true,
            ) {
                Ok(uid) => LinkStep {
                    state: Some(LinkState::Unlinking),
                    action: LinkAction::DeleteRecord { kind: String::from_str("uid"), key: uid },
                },
                Err(r) => LinkStep { state: None, action: LinkAction::Reply(r) },
            },
            LinkState::Unlinking => {
                let reply = match event {
                    Lookup::Found(_) => DiscordCommandResponse::followup_response(
                        "Successfully unlinked account.",
                        true,
                    ),
                    Lookup::Missing => DiscordCommandResponse::followup_response(
                        "No such linked account exist.",
                        true,
                    ),
                    Lookup::Failed => {
                        let id = new_error_id();
                        let mut text = String::from_str(
                            "Error occurred while trying to delete record.\nError ID: ",
                        );
                        text.append(id.as_str());
                        assert(text@ == unlink_failed_text(id@));
                        DiscordCommandResponse::followup_response(text.as_str(), true)
                    },
                };
                LinkStep { state: None, action: LinkAction::Reply(reply) }
            },
        }
    }
}

} // verus!
