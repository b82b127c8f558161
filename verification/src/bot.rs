//! The Discord side of the bot: which commands exist, in which guilds they are
//! registered, and how an incoming command interaction is answered.

use vstd::prelude::*;
use vstd::string::StringExecFns;

use crate::bot::commands::{DiscordCommandDefinition, DiscordCommandResponse, ReplyMessage};
use crate::decimal::{parse_u64, parse_u64_checked, spec_parse_u64, spec_parse_u64_result, IntErrorKind};
use crate::error::Error;

pub mod commands;
pub mod sponsor;

verus! {

// ---------------------------------------------------------------------------
// Commands and their registration
// ---------------------------------------------------------------------------

/// The handler that answers the command `name`: of several handlers with that
/// name, the one registered last.
pub open spec fn handler_index(defs: Seq<DiscordCommandDefinition>, name: Seq<char>) -> Option<int>
    decreases defs.len(),
{
    if defs.len() == 0 {
        None
    } else if defs.last().name@ == name {
        Some(defs.len() - 1)
    } else {
        handler_index(defs.drop_last(), name)
    }
}

/// The positions of the global (or of the guild-local) commands, in order.
pub open spec fn registration_indices(defs: Seq<DiscordCommandDefinition>, global: bool) -> Seq<
    usize,
>
    decreases defs.len(),
{
    if defs.len() == 0 {
        Seq::empty()
    } else {
        let rest = registration_indices(defs.drop_last(), global);
        if defs.last().is_global == global {
            rest.push((defs.len() - 1) as usize)
        } else {
            rest
        }
    }
}

/// The commands the bot answers, in the order they were given, and which of
/// them are registered for the configured guilds and which globally.
#[derive(Debug)]
pub struct CommandRegistry {
    pub definitions: Vec<DiscordCommandDefinition>,
    /// Positions in `definitions` of the commands registered per guild.
    pub registrations: Vec<usize>,
    /// Positions in `definitions` of the commands registered globally.
    pub global_registrations: Vec<usize>,
}

impl CommandRegistry {
    /// Sorts the commands into guild and global registrations.
    pub fn new(definitions: Vec<DiscordCommandDefinition>) -> (r: Self)
        ensures
            r.definitions@ == definitions@,
            r.registrations@ == registration_indices(definitions@, false),
            r.global_registrations@ == registration_indices(definitions@, true),
    {
        let mut registrations: Vec<usize> = Vec::new();
        let mut global_registrations: Vec<usize> = Vec::new();
        for i in 0..definitions.len()
            invariant
                registrations@ == registration_indices(definitions@.take(i as int), false),
                global_registrations@ == registration_indices(definitions@.take(i as int), true),
        {
            assert(definitions@.take(i + 1).drop_last() =~= definitions@.take(i as int));
            if definitions[i].is_global {
                global_registrations.push(i);
            } else {
                registrations.push(i);
            }
        }
        assert(definitions@.take(definitions.len() as int) =~= definitions@);
        CommandRegistry { definitions, registrations, global_registrations }
    }

    /// The handler that answers the command `name`, if any.
    pub fn find_handler(&self, name: &str) -> (r: Option<usize>)
        ensures
            match handler_index(self.definitions@, name@) {
                Some(i) => r == Some(i as usize),
                None => r is None,
            },
    {
        let mut i = self.definitions.len();
        assert(self.definitions@.take(i as int) =~= self.definitions@);
        while i > 0
            invariant
                i <= self.definitions.len(),
                handler_index(self.definitions@, name@) == handler_index(
                    self.definitions@.take(i as int),
                    name@,
                ),
            decreases i,
        {
            let ghost t = self.definitions@.take(i as int);
            assert(t.drop_last() =~= self.definitions@.take(i - 1));
            assert(t.last() == self.definitions@[i - 1]);
            if String::from_str(name) == self.definitions[i - 1].name {
                return Some(i - 1);
            }
            i = i - 1;
        }
        None
    }
}

// ---------------------------------------------------------------------------
// Guilds
// ---------------------------------------------------------------------------

/// What reading the configured guild ids gives: all of them, or why the
/// first id that is not a number is not.
pub open spec fn guild_ids_result(ids: Seq<String>) -> Result<Seq<u64>, IntErrorKind>
    decreases ids.len(),
{
    if ids.len() == 0 {
        Ok(Seq::empty())
    } else {
        match guild_ids_result(ids.drop_last()) {
            Err(k) => Err(k),
            Ok(vs) => match spec_parse_u64_result(ids.last()@) {
                Ok(v) => Ok(vs.push(v)),
                Err(k) => Err(k),
            },
        }
    }
}

/// The configured guild ids that are numbers, in order.
pub open spec fn valid_guild_ids(ids: Seq<String>) -> Seq<u64>
    decreases ids.len(),
{
    if ids.len() == 0 {
        Seq::empty()
    } else {
        let rest = valid_guild_ids(ids.drop_last());
        match spec_parse_u64(ids.last()@) {
            Some(v) => rest.push(v),
            None => rest,
        }
    }
}

/// Reads the configured guild ids; one that is not a number is an error.
pub fn parse_guild_ids(ids: &Vec<String>) -> (r: Result<Vec<u64>, Error>)
    ensures
        match guild_ids_result(ids@) {
            Ok(vs) => r matches Ok(v) && v@ == vs,
            Err(k) => r matches Err(Error::ParseIntError(k2)) && k2 == k,
        },
{
    let mut out: Vec<u64> = Vec::new();
    for i in 0..ids.len()
        invariant
            guild_ids_result(ids@.take(i as int)) == Ok::<Seq<u64>, IntErrorKind>(out@),
    {
        let ghost t = ids@.take(i + 1);
        assert(t.drop_last() =~= ids@.take(i as int));
        match parse_u64_checked(ids[i].as_str()) {
            Ok(v) => {
                out.push(v);
            },
            Err(k) => {
                proof {
                    lemma_guild_ids_error_stays(ids@, i + 1);
                }
                return Err(Error::ParseIntError(k));
            },
        }
    }
    assert(ids@.take(ids.len() as int) =~= ids@);
    Ok(out)
}

/// Once reading a prefix fails, reading the whole fails the same way.
proof fn lemma_guild_ids_error_stays(ids: Seq<String>, i: int)
    requires
        0 <= i <= ids.len(),
        guild_ids_result(ids.take(i)) is Err,
    ensures
        guild_ids_result(ids) == guild_ids_result(ids.take(i)),
    decreases ids.len() - i,
{
    if i < ids.len() {
        assert(ids.take(i + 1).drop_last() =~= ids.take(i));
        lemma_guild_ids_error_stays(ids, i + 1);
    } else {
        assert(ids.take(i) =~= ids);
    }
}

/// The configured guild ids, skipping the ones that are not numbers.
pub fn parse_valid_guild_ids(ids: &Vec<String>) -> (r: Vec<u64>)
    ensures
        r@ == valid_guild_ids(ids@),
{
    let mut out: Vec<u64> = Vec::new();
    for i in 0..ids.len()
        invariant
            out@ == valid_guild_ids(ids@.take(i as int)),
    {
        assert(ids@.take(i + 1).drop_last() =~= ids@.take(i as int));
        match parse_u64(ids[i].as_str()) {
            Some(v) => {
                out.push(v);
            },
            None => {},
        }
    }
    assert(ids@.take(ids.len() as int) =~= ids@);
    out
}

// ---------------------------------------------------------------------------
// Answering a command interaction
// ---------------------------------------------------------------------------

/// How a command interaction is taken on once the guild checks are done.
#[derive(Debug)]
pub enum InteractionRoute {
    /// No handler: answer with this message and stop.
    NotFound { message: String },
    /// Defer the answer with this message (private or not), then run the
    /// handler and send what it answers as a follow-up.
    Deferred { message: String, ephemeral: bool },
    /// Run the handler and send what it answers as the response.
    Immediate,
}

/// What to do with a command interaction: the notices to send first (the
/// command is not refused after them), then the route.
#[derive(Debug)]
pub struct InteractionPlan {
    pub notices: Vec<String>,
    pub route: InteractionRoute,
}

/// The notices for an interaction from the given guild (none for a direct
/// message).
pub open spec fn interaction_notices(guild_id: Option<u64>, guilds: Seq<u64>) -> Seq<Seq<char>> {
    match guild_id {
        Some(g) => if guilds.contains(g) {
            Seq::empty()
        } else {
            seq!["Not allowed at this guild."@]
        },
        None => seq!["Not allowed in DMs."@],
    }
}

/// An interaction from a guild gets no notice exactly when that guild is one
/// of the configured guilds, wherever it stands among them (so every
/// configured guild is allowed), and the single
/// notice "Not allowed at this guild." otherwise; one from a direct message
/// gets "Not allowed in DMs.".
pub proof fn lemma_notices_follow_the_configured_guilds(guild: u64, guilds: Seq<u64>)
    ensures
        interaction_notices(Some(guild), guilds) == (if exists|k: int|
            0 <= k < guilds.len() && guilds[k] == guild {
            Seq::<Seq<char>>::empty()
        } else {
            seq!["Not allowed at this guild."@]
        }),
        forall|k: int|
            0 <= k < guilds.len() ==> #[trigger] interaction_notices(Some(guilds[k]), guilds).len()
                == 0,
        interaction_notices(None, guilds) == seq!["Not allowed in DMs."@],
{
    assert forall|k: int| 0 <= k < guilds.len() implies #[trigger] interaction_notices(
        Some(guilds[k]),
        guilds,
    ).len() == 0 by {
        assert(guilds.contains(guilds[k]));
    }
}

/// The view of a list of texts.
pub open spec fn texts_view(texts: Seq<String>) -> Seq<Seq<char>> {
    texts.map_values(|t: String| t@)
}

/// Plans the answer to a command interaction from the guild it came from (if
/// any), the allowed guilds and the definition of the handler of the command
/// (if there is one).
pub fn interaction_plan(
    guild_id: Option<u64>,
    guilds: &Vec<u64>,
    handler: Option<&DiscordCommandDefinition>,
) -> (p: InteractionPlan)
    ensures
        texts_view(p.notices@) == interaction_notices(guild_id, guilds@),
        match handler {
            None => p.route matches InteractionRoute::NotFound { message } && message@
                == "Command not found!"@,
            Some(d) => if d.is_deferred {
                p.route matches InteractionRoute::Deferred { message, ephemeral } && message@
                    == "Your request is processing..."@ && ephemeral == d.is_ephemeral
            } else {
                p.route is Immediate
            },
        },
{
    let mut notices: Vec<String> = Vec::new();
    match guild_id {
        Some(g) => {
            let mut allowed = false;
            for i in 0..guilds.len()
                invariant
                    allowed == exists|k: int| 0 <= k < i && guilds@[k] == g,
            {
                if guilds[i] == g {
                    allowed = true;
                }
            }
            assert(allowed == guilds@.contains(g));
            if !allowed {
                notices.push(String::from_str("Not allowed at this guild."));
            }
        },
        None => {
            notices.push(String::from_str("Not allowed in DMs."));
        },
    }
    assert(texts_view(notices@) =~= interaction_notices(guild_id, guilds@));
    let route = match handler {
        None => InteractionRoute::NotFound { message: String::from_str("Command not found!") },
        Some(d) => if d.is_deferred {
            InteractionRoute::Deferred {
                message: String::from_str("Your request is processing..."),
                ephemeral: d.is_ephemeral,
            }
        } else {
            InteractionRoute::Immediate
        },
    };
    InteractionPlan { notices, route }
}

/// How a handler's answer is sent.
#[derive(Debug)]
pub enum Delivery {
    /// As the response to the interaction.
    Respond(ReplyMessage),
    /// As a follow-up to the deferred response.
    Followup(ReplyMessage),
    /// The handler answered in the wrong form for the route; nothing is sent.
    Mismatch,
}

/// Sends a deferred command's follow-up as a follow-up and an immediate
/// command's response as the response; any other answer is a mistake of the
/// handler and is dropped.
pub fn delivery(deferred: bool, response: DiscordCommandResponse) -> (d: Delivery)
    ensures
        match response {
            DiscordCommandResponse::Followup(m) => if deferred {
                d == Delivery::Followup(m)
            } else {
                d is Mismatch
            },
            DiscordCommandResponse::Default(m) => if deferred {
                d is Mismatch
            } else {
                d == Delivery::Respond(m)
            },
        },
{
    match response {
        DiscordCommandResponse::Followup(m) => if deferred {
            Delivery::Followup(m)
        } else {
            Delivery::Mismatch
        },
        DiscordCommandResponse::Default(m) => if deferred {
            Delivery::Mismatch
        } else {
            Delivery::Respond(m)
        },
    }
}

/// Remembers whether the sponsor watcher was started: the bot's `ready`
/// event can fire more than once (on reconnects), the watcher must start once.
#[derive(Debug)]
pub struct SponsorTaskGate {
    started: bool,
}

impl SponsorTaskGate {
    /// Whether the watcher was started.
    pub closed spec fn is_started(&self) -> bool {
        self.started
    }

    /// A gate through which nothing was started yet.
    pub fn new() -> (g: Self)
        ensures
            !g.is_started(),
    {
        SponsorTaskGate { started: false }
    }

    /// Whether to start the watcher now: only the first time.
    pub fn try_start(&mut self) -> (start: bool)
        ensures
            start == !old(self).is_started(),
            final(self).is_started(),
    {
        let start = !self.started;
        self.started = true;
        start
    }
}

/// However many times `ready` fires, the watcher is started at most once:
/// of a run of `try_start` calls on one gate (each answering as its contract
/// says), only the first can say yes.
pub proof fn lemma_sponsor_task_starts_once(gates: Seq<SponsorTaskGate>, answers: Seq<bool>)
    requires
        gates.len() == answers.len() + 1,
        forall|i: int|
            #![trigger answers[i]]
            0 <= i < answers.len() ==> (answers[i] == !gates[i].is_started()) && gates[i
                + 1].is_started(),
    ensures
        forall|j: int| 0 < j < answers.len() ==> !#[trigger] answers[j],
{
    assert forall|j: int| 0 < j < answers.len() implies !#[trigger] answers[j] by {
        let p = j - 1;
        assert(0 <= p < answers.len());
        let earlier = answers[p];
        assert((earlier == !gates[p].is_started()) && gates[p + 1].is_started());
        assert(p + 1 == j);
        assert(answers[j] == !gates[j].is_started());
    }
}

} // verus!
