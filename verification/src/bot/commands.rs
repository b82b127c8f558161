//! What every slash command shares: its definition, the options Discord
//! resolved for an invocation, the replies it can give, and the way a failed
//! lookup is turned into a reply.

use vstd::prelude::*;
use vstd::string::StringExecFns;

use crate::utils::{rgb_value, red_color, Color};

pub mod femboy;
pub mod link;
pub mod preferences;
pub mod sponsor;

verus! {

/// How a command is registered and answered.
#[derive(Clone, Debug)]
pub struct DiscordCommandDefinition {
    pub name: String,
    /// Registered for every server rather than for the configured guilds.
    pub is_global: bool,
    /// Answered with a deferred reply followed by a follow-up message.
    pub is_deferred: bool,
    /// The deferred reply is only shown to the invoking user.
    pub is_ephemeral: bool,
}

impl DiscordCommandDefinition {
    /// A command registered globally.
    pub fn new_global(name: &str, is_deferred: bool, is_ephemeral: bool) -> (d: Self)
        ensures
            d.name@ == name@,
            d.is_global,
            d.is_deferred == is_deferred,
            d.is_ephemeral == is_ephemeral,
    {
        DiscordCommandDefinition {
            name: String::from_str(name),
            is_global: true,
            is_deferred,
            is_ephemeral,
        }
    }

    /// A command registered for the configured guilds only.
    pub fn new_local(name: &str, is_deferred: bool, is_ephemeral: bool) -> (d: Self)
        ensures
            d.name@ == name@,
            !d.is_global,
            d.is_deferred == is_deferred,
            d.is_ephemeral == is_ephemeral,
    {
        DiscordCommandDefinition {
            name: String::from_str(name),
            is_global: false,
            is_deferred,
            is_ephemeral,
        }
    }
}

/// The value Discord resolved for one option of a command invocation.
#[derive(Debug)]
pub enum OptionValue {
    SubCommandGroup(Vec<CommandOption>),
    SubCommand(Vec<CommandOption>),
    /// A user, by id.
    User(u64),
    String(String),
    /// Any other kind of value (numbers, roles, channels, ...).
    Other,
}

/// One resolved option: its name and value.
#[derive(Debug)]
pub struct CommandOption {
    pub name: String,
    pub value: OptionValue,
}

/// A message sent back to Discord.
#[derive(Clone, Debug)]
pub struct ReplyMessage {
    pub content: String,
    /// Sent as an embed (with a colour and an optional error id) rather than
    /// as plain text.
    pub embed: bool,
    /// The id under which a failure was logged, shown to the user.
    pub error_id: Option<String>,
    pub color: Option<Color>,
    /// Only shown to the invoking user.
    pub ephemeral: bool,
}

/// What a command handler answers with.
#[derive(Clone, Debug)]
pub enum DiscordCommandResponse {
    /// The initial response to the interaction.
    Default(ReplyMessage),
    /// A follow-up to a deferred response.
    Followup(ReplyMessage),
}

/// `r` is a plain-text follow-up with the given text.
pub open spec fn is_followup_text(r: DiscordCommandResponse, text: Seq<char>, ephemeral: bool) -> bool {
    &&& r matches DiscordCommandResponse::Followup(m)
    &&& m.content@ == text
    &&& !m.embed
    &&& m.error_id is None
    &&& m.color is None
    &&& m.ephemeral == ephemeral
}

/// `r` is an embed follow-up with the given text and error id.
pub open spec fn is_followup_embed(
    r: DiscordCommandResponse,
    text: Seq<char>,
    error_id: Option<Seq<char>>,
    ephemeral: bool,
) -> bool {
    &&& r matches DiscordCommandResponse::Followup(m)
    &&& m.content@ == text
    &&& m.embed
    &&& match (m.error_id, error_id) {
        (Some(a), Some(b)) => a@ == b,
        (None, None) => true,
        _ => false,
    }
    &&& m.ephemeral == ephemeral
}

/// `r` is the red embed by which a failure is reported.
pub open spec fn is_error_reply(r: DiscordCommandResponse, text: Seq<char>, ephemeral: bool) -> bool {
    &&& r matches DiscordCommandResponse::Followup(m)
    &&& m.content@ == text
    &&& m.embed
    &&& m.error_id is None
    &&& m.color == Some(Color { value: rgb_value(255, 0, 0) as u32 })
    &&& m.ephemeral == ephemeral
}

/// `r` is the red embed by which a logged failure is reported: it carries the
/// (freshly generated, 36 characters long) id under which it was logged.
pub open spec fn is_logged_error_reply(r: DiscordCommandResponse, text: Seq<char>, ephemeral: bool) -> bool {
    &&& r matches DiscordCommandResponse::Followup(m)
    &&& m.content@ == text
    &&& m.embed
    &&& m.error_id matches Some(id) && id@.len() == 36
    &&& m.color == Some(Color { value: rgb_value(255, 0, 0) as u32 })
    &&& m.ephemeral == ephemeral
}

impl DiscordCommandResponse {
    /// A plain-text follow-up.
    pub fn followup_response(content: &str, ephemeral: bool) -> (r: Self)
        ensures
            is_followup_text(r, content@, ephemeral),
    {
        DiscordCommandResponse::Followup(
            ReplyMessage {
                content: String::from_str(content),
                embed: false,
                error_id: None,
                color: None,
                ephemeral,
            },
        )
    }

    /// An embed follow-up, optionally carrying the id of a logged failure.
    pub fn followup_embed_response(
        content: &str,
        error_id: Option<&str>,
        color: Option<Color>,
        ephemeral: bool,
    ) -> (r: Self)
        ensures
            is_followup_embed(
                r,
                content@,
                match error_id {
                    Some(id) => Some(id@),
                    None => None,
                },
                ephemeral,
            ),
            r matches DiscordCommandResponse::Followup(m) && m.color == color,
    {
        let id = match error_id {
            Some(id) => Some(String::from_str(id)),
            None => None,
        };
        DiscordCommandResponse::Followup(
            ReplyMessage {
                content: String::from_str(content),
                embed: true,
                error_id: id,
                color,
                ephemeral,
            },
        )
    }
}

/// `Uuid::new_v4().to_string()`: a fresh random id in hyphenated form, which
/// the uuid crate always writes with 36 characters.
#[verifier::external_body]
pub(crate) fn new_error_id() -> (id: String)
    ensures
        id@.len() == 36,
{
    uuid::Uuid::new_v4().to_string()
}

/// The red embed that reports a failure.
pub fn error_reply(content: &str, ephemeral: bool) -> (r: DiscordCommandResponse)
    ensures
        is_error_reply(r, content@, ephemeral),
{
    DiscordCommandResponse::followup_embed_response(content, None, Some(red_color()), ephemeral)
}

/// The red embed that reports a failure logged under a fresh error id.
pub fn logged_error_reply(content: &str, ephemeral: bool) -> (r: DiscordCommandResponse)
    ensures
        is_logged_error_reply(r, content@, ephemeral),
{
    let id = new_error_id();
    DiscordCommandResponse::followup_embed_response(
        content,
        Some(id.as_str()),
        Some(red_color()),
        ephemeral,
    )
}

/// Continues with the value, or answers with `none_msg` when there is none.
pub fn unwrap_or_reply<T>(opt: Option<T>, none_msg: &str, ephemeral: bool) -> (r: Result<
    T,
    DiscordCommandResponse,
>)
    ensures
        match opt {
            Some(v) => r == Ok::<T, DiscordCommandResponse>(v),
            None => r matches Err(resp) && is_error_reply(resp, none_msg@, ephemeral),
        },
{
    match opt {
        Some(v) => Ok(v),
        None => Err(error_reply(none_msg, ephemeral)),
    }
}

/// The outcome of a lookup that can fail, or find nothing.
#[derive(Clone, Debug)]
pub enum Lookup<T> {
    Found(T),
    Missing,
    Failed,
}

/// Continues with what a lookup found, or answers with `none_msg` when it
/// found nothing and with `err_msg` (and a logged error id) when it failed.
pub fn found_or_reply<T>(lookup: Lookup<T>, none_msg: &str, err_msg: &str, ephemeral: bool) -> (r:
    Result<T, DiscordCommandResponse>)
    ensures
        match lookup {
            Lookup::Found(v) => r == Ok::<T, DiscordCommandResponse>(v),
            Lookup::Missing => r matches Err(resp) && is_error_reply(resp, none_msg@, ephemeral),
            Lookup::Failed => r matches Err(resp) && is_logged_error_reply(
                resp,
                err_msg@,
                ephemeral,
            ),
        },
{
    match lookup {
        Lookup::Found(v) => Ok(v),
        Lookup::Missing => Err(error_reply(none_msg, ephemeral)),
        Lookup::Failed => Err(logged_error_reply(err_msg, ephemeral)),
    }
}

/// Compares two strings by their characters.
pub fn text_eq(a: &str, b: &str) -> (r: bool)
    ensures
        r == (a@ == b@),
{
    String::from_str(a) == String::from_str(b)
}

/// The value of the first option called `name` that holds a string.
pub open spec fn string_arg(opts: Seq<CommandOption>, name: Seq<char>) -> Option<String>
    decreases opts.len(),
{
    if opts.len() == 0 {
        None
    } else if opts[0].name@ == name && opts[0].value is String {
        Some(opts[0].value->String_0)
    } else {
        string_arg(opts.drop_first(), name)
    }
}

/// The user of the first option called `name` that holds a user.
pub open spec fn user_arg(opts: Seq<CommandOption>, name: Seq<char>) -> Option<u64>
    decreases opts.len(),
{
    if opts.len() == 0 {
        None
    } else if opts[0].name@ == name && opts[0].value is User {
        Some(opts[0].value->User_0)
    } else {
        user_arg(opts.drop_first(), name)
    }
}

/// The string argument called `name`.
pub fn extract_string_arg(opts: &Vec<CommandOption>, name: &str) -> (r: Option<String>)
    ensures
        r == string_arg(opts@, name@),
{
    let mut i: usize = 0;
    assert(opts@.skip(0) =~= opts@);
    while i < opts.len()
        invariant
            i <= opts.len(),
            string_arg(opts@, name@) == string_arg(opts@.skip(i as int), name@),
        decreases opts.len() - i,
    {
        assert(opts@.skip(i as int).drop_first() =~= opts@.skip(i + 1));
        let opt = &opts[i];
        if text_eq(opt.name.as_str(), name) {
            if let OptionValue::String(s) = &opt.value {
                return Some(s.clone());
            }
        }
        i = i + 1;
    }
    None
}

/// The user argument called `name`.
pub fn extract_user_arg(opts: &Vec<CommandOption>, name: &str) -> (r: Option<u64>)
    ensures
        r == user_arg(opts@, name@),
{
    let mut i: usize = 0;
    assert(opts@.skip(0) =~= opts@);
    while i < opts.len()
        invariant
            i <= opts.len(),
            user_arg(opts@, name@) == user_arg(opts@.skip(i as int), name@),
        decreases opts.len() - i,
    {
        assert(opts@.skip(i as int).drop_first() =~= opts@.skip(i + 1));
        let opt = &opts[i];
        if text_eq(opt.name.as_str(), name) {
            if let OptionValue::User(u) = &opt.value {
                return Some(*u);
            }
        }
        i = i + 1;
    }
    None
}

/// The in-game login given to a command.
pub fn opts_get_login(opts: &Vec<CommandOption>) -> (r: Option<String>)
    ensures
        r == string_arg(opts@, "login"@),
{
    extract_string_arg(opts, "login")
}

// ---------------------------------------------------------------------------
// Registration: how a command is described to Discord
// ---------------------------------------------------------------------------

/// The kind of value an option takes.
#[derive(Clone, Copy, Debug, PartialEq, Eq, Structural)]
pub enum OptionKind {
    SubCommandGroup,
    SubCommand,
    User,
    String,
}

/// An option of a command as it is registered.
#[derive(Debug)]
pub struct OptionSpec {
    pub kind: OptionKind,
    pub name: String,
    pub description: String,
    /// `(locale, name)` pairs.
    pub name_localizations: Vec<(String, String)>,
    /// `(locale, description)` pairs.
    pub description_localizations: Vec<(String, String)>,
    pub required: bool,
    /// `(shown name, value)` pairs a string option is limited to.
    pub choices: Vec<(String, String)>,
    /// The options of a sub-command (group).
    pub options: Vec<OptionSpec>,
}

/// A command as it is registered.
#[derive(Debug)]
pub struct CommandSpec {
    pub name: String,
    pub description: String,
    /// `(locale, name)` pairs.
    pub name_localizations: Vec<(String, String)>,
    /// `(locale, description)` pairs.
    pub description_localizations: Vec<(String, String)>,
    /// Only members who may manage webhooks see the command by default.
    pub manage_webhooks_only: bool,
    pub options: Vec<OptionSpec>,
}

/// The view of `(String, String)` pairs.
pub open spec fn pairs_view(pairs: Seq<(String, String)>) -> Seq<(Seq<char>, Seq<char>)> {
    pairs.map_values(|p: (String, String)| (p.0@, p.1@))
}

/// `o` is an option of the given kind, name and requiredness with `n`
/// options of its own, and no fixed choices.
pub open spec fn is_option(o: OptionSpec, kind: OptionKind, name: Seq<char>, required: bool, n: nat) -> bool {
    &&& o.kind == kind
    &&& o.name@ == name
    &&& o.required == required
    &&& o.options@.len() == n
    &&& o.choices@.len() == 0
}

/// `o` has the given description and translations: its name in Russian, and
/// (if given) its description in Russian.
pub open spec fn is_described(
    o: OptionSpec,
    description: Seq<char>,
    ru_name: Option<Seq<char>>,
    ru_description: Option<Seq<char>>,
) -> bool {
    &&& o.description@ == description
    &&& pairs_view(o.name_localizations@) == match ru_name {
        Some(n) => seq![("ru"@, n)],
        None => Seq::empty(),
    }
    &&& pairs_view(o.description_localizations@) == match ru_description {
        Some(d) => seq![("ru"@, d)],
        None => Seq::empty(),
    }
}

fn pair(a: &str, b: &str) -> (p: (String, String))
    ensures
        p.0@ == a@,
        p.1@ == b@,
{
    (String::from_str(a), String::from_str(b))
}

impl OptionSpec {
    /// An option with a kind, a name and a description, and nothing else.
    pub fn new(kind: OptionKind, name: &str, description: &str) -> (o: Self)
        ensures
            o.kind == kind,
            o.name@ == name@,
            o.description@ == description@,
            o.name_localizations@.len() == 0,
            o.description_localizations@.len() == 0,
            pairs_view(o.name_localizations@) == Seq::<(Seq<char>, Seq<char>)>::empty(),
            pairs_view(o.description_localizations@) == Seq::<(Seq<char>, Seq<char>)>::empty(),
            !o.required,
            o.choices@.len() == 0,
            o.options@.len() == 0,
    {
        let o = OptionSpec {
            kind,
            name: String::from_str(name),
            description: String::from_str(description),
            name_localizations: Vec::new(),
            description_localizations: Vec::new(),
            required: false,
            choices: Vec::new(),
            options: Vec::new(),
        };
        assert(pairs_view(o.name_localizations@) =~= Seq::<(Seq<char>, Seq<char>)>::empty());
        assert(pairs_view(o.description_localizations@) =~= Seq::<(Seq<char>, Seq<char>)>::empty());
        o
    }

    /// Adds the option's name in a locale.
    pub fn name_localized(self, locale: &str, name: &str) -> (o: Self)
        ensures
            pairs_view(o.name_localizations@) == pairs_view(self.name_localizations@).push(
                (locale@, name@),
            ),
            self.name_localizations@.len() == 0 ==> pairs_view(o.name_localizations@) == seq![
                (locale@, name@),
            ],
            o.kind == self.kind && o.name == self.name && o.description == self.description,
            o.description_localizations == self.description_localizations,
            o.required == self.required && o.choices == self.choices && o.options == self.options,
    {
        let mut o = self;
        let ghost before = o.name_localizations@;
        o.name_localizations.push(pair(locale, name));
        assert(pairs_view(o.name_localizations@) =~= pairs_view(before).push((locale@, name@)));
        assert(before.len() == 0 ==> pairs_view(o.name_localizations@) =~= seq![(locale@, name@)]);
        o
    }

    /// Adds the option's description in a locale.
    pub fn description_localized(self, locale: &str, description: &str) -> (o: Self)
        ensures
            pairs_view(o.description_localizations@) == pairs_view(
                self.description_localizations@,
            ).push((locale@, description@)),
            self.description_localizations@.len() == 0 ==> pairs_view(
                o.description_localizations@,
            ) == seq![(locale@, description@)],
            o.kind == self.kind && o.name == self.name && o.description == self.description,
            o.name_localizations == self.name_localizations,
            o.required == self.required && o.choices == self.choices && o.options == self.options,
    {
        let mut o = self;
        let ghost before = o.description_localizations@;
        o.description_localizations.push(pair(locale, description));
        assert(pairs_view(o.description_localizations@) =~= pairs_view(before).push(
            (locale@, description@),
        ));
        assert(before.len() == 0 ==> pairs_view(o.description_localizations@) =~= seq![
            (locale@, description@),
        ]);
        o
    }

    /// Makes the option required (or not).
    pub fn required(self, required: bool) -> (o: Self)
        ensures
            o.required == required,
            o.kind == self.kind && o.name == self.name && o.description == self.description,
            o.name_localizations == self.name_localizations,
            o.description_localizations == self.description_localizations,
            o.choices == self.choices && o.options == self.options,
    {
        let mut o = self;
        o.required = required;
        o
    }

    /// Adds an option of this sub-command (group).
    pub fn add_sub_option(self, sub: OptionSpec) -> (o: Self)
        ensures
            o.options@ == self.options@.push(sub),
            o.kind == self.kind && o.name == self.name && o.description == self.description,
            o.name_localizations == self.name_localizations,
            o.description_localizations == self.description_localizations,
            o.required == self.required && o.choices == self.choices,
    {
        let mut o = self;
        o.options.push(sub);
        o
    }

    /// Adds a choice, shown as `name`, that stands for `value`.
    pub fn add_string_choice(self, name: String, value: String) -> (o: Self)
        ensures
            o.choices@ == self.choices@.push((name, value)),
            o.kind == self.kind && o.name == self.name && o.description == self.description,
            o.name_localizations == self.name_localizations,
            o.description_localizations == self.description_localizations,
            o.required == self.required && o.options == self.options,
    {
        let mut o = self;
        o.choices.push((name, value));
        o
    }
}

impl CommandSpec {
    /// A command with a name and nothing else.
    pub fn new(name: &str) -> (c: Self)
        ensures
            c.name@ == name@,
            c.description@.len() == 0,
            c.name_localizations@.len() == 0,
            c.description_localizations@.len() == 0,
            !c.manage_webhooks_only,
            c.options@.len() == 0,
    {
        CommandSpec {
            name: String::from_str(name),
            description: String::new(),
            name_localizations: Vec::new(),
            description_localizations: Vec::new(),
            manage_webhooks_only: false,
            options: Vec::new(),
        }
    }

    /// Adds the command's name in a locale.
    pub fn name_localized(self, locale: &str, name: &str) -> (c: Self)
        ensures
            pairs_view(c.name_localizations@) == pairs_view(self.name_localizations@).push(
                (locale@, name@),
            ),
            c.name == self.name && c.description == self.description,
            c.description_localizations == self.description_localizations,
            c.manage_webhooks_only == self.manage_webhooks_only && c.options == self.options,
    {
        let mut c = self;
        let ghost before = c.name_localizations@;
        c.name_localizations.push(pair(locale, name));
        assert(pairs_view(c.name_localizations@) =~= pairs_view(before).push((locale@, name@)));
        c
    }

    /// Sets the command's description.
    pub fn description(self, description: &str) -> (c: Self)
        ensures
            c.description@ == description@,
            c.name == self.name && c.name_localizations == self.name_localizations,
            c.description_localizations == self.description_localizations,
            c.manage_webhooks_only == self.manage_webhooks_only && c.options == self.options,
    {
        let mut c = self;
        c.description = String::from_str(description);
        c
    }

    /// Adds the command's description in a locale.
    pub fn description_localized(self, locale: &str, description: &str) -> (c: Self)
        ensures
            pairs_view(c.description_localizations@) == pairs_view(
                self.description_localizations@,
            ).push((locale@, description@)),
            c.name == self.name && c.description == self.description,
            c.name_localizations == self.name_localizations,
            c.manage_webhooks_only == self.manage_webhooks_only && c.options == self.options,
    {
        let mut c = self;
        let ghost before = c.description_localizations@;
        c.description_localizations.push(pair(locale, description));
        assert(pairs_view(c.description_localizations@) =~= pairs_view(before).push(
            (locale@, description@),
        ));
        c
    }

    /// Shows the command by default only to members who may manage webhooks.
    pub fn restrict_to_webhook_managers(self) -> (c: Self)
        ensures
            c.manage_webhooks_only,
            c.name == self.name && c.description == self.description,
            c.name_localizations == self.name_localizations,
            c.description_localizations == self.description_localizations,
            c.options == self.options,
    {
        let mut c = self;
        c.manage_webhooks_only = true;
        c
    }

    /// Adds a top-level option.
    pub fn add_option(self, option: OptionSpec) -> (c: Self)
        ensures
            c.options@ == self.options@.push(option),
            c.name == self.name && c.description == self.description,
            c.name_localizations == self.name_localizations,
            c.description_localizations == self.description_localizations,
            c.manage_webhooks_only == self.manage_webhooks_only,
    {
        let mut c = self;
        c.options.push(option);
        c
    }
}

} // verus!
