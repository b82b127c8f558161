//! `/femboy`: answers with one of a few pictures, chosen at random.

use vstd::prelude::*;

use rand::RngExt;

use super::{
    is_followup_text, pairs_view, CommandOption, CommandSpec, DiscordCommandDefinition,
    DiscordCommandResponse,
};

verus! {

#[derive(Debug)]
pub struct FemboyCommand;

/// How many pictures there are to choose from.
pub const FEMBOY_IMAGE_COUNT: usize = 4;

/// The address of the `i`-th picture.
pub open spec fn femboy_image_url(i: int) -> Seq<char> {
    if i == 0 {
        "https://i.pinimg.com/originals/10/89/22/1089220beba27d80631e65408f045df8.gif"@
    } else if i == 1 {
        "https://i.pinimg.com/originals/4b/48/5b/4b485b307c58b4a77a19f755d1620388.gif"@
    } else if i == 2 {
        "https://i.pinimg.com/originals/c8/38/5c/c8385c6980bcac8c8a370f815d48ece0.gif"@
    } else {
        "https://i.pinimg.com/736x/cf/2d/45/cf2d456b0f88017dbbbc6f8c9d9f7d17.jpg"@
    }
}

/// The address of the `i`-th picture.
pub fn femboy_image(i: usize) -> (url: &'static str)
    requires
        i < FEMBOY_IMAGE_COUNT,
    ensures
        url@ == femboy_image_url(i as int),
{
    if i == 0 {
        "https://i.pinimg.com/originals/10/89/22/1089220beba27d80631e65408f045df8.gif"
    } else if i == 1 {
        "https://i.pinimg.com/originals/4b/48/5b/4b485b307c58b4a77a19f755d1620388.gif"
    } else if i == 2 {
        "https://i.pinimg.com/originals/c8/38/5c/c8385c6980bcac8c8a370f815d48ece0.gif"
    } else {
        "https://i.pinimg.com/736x/cf/2d/45/cf2d456b0f88017dbbbc6f8c9d9f7d17.jpg"
    }
}

/// `rand::rng().random_range(0..n)`: an index drawn from the thread-local
/// generator; rand documents that it lies in the range (and panics on an
/// empty one).
#[verifier::external_body]
fn random_index_below(n: usize) -> (i: usize)
    requires
        n > 0,
    ensures
        i < n,
{
    rand::rng().random_range(0..n)
}

impl FemboyCommand {
    /// Registered globally, answered with a public deferred reply.
    pub fn definition(&self) -> (d: DiscordCommandDefinition)
        ensures
            d.name@ == "femboy"@,
            d.is_global,
            d.is_deferred,
            !d.is_ephemeral,
    {
        DiscordCommandDefinition::new_global("femboy", true, false)
    }

    /// How the command is described to Discord.
    pub fn registration(&self) -> (c: CommandSpec)
        ensures
            c.name@ == "femboy"@,
            c.description@ == ">w<"@,
            pairs_view(c.name_localizations@) == seq![("ru"@, "фембой"@)],
            c.description_localizations@.len() == 0,
            !c.manage_webhooks_only,
            c.options@.len() == 0,
    {
        let c = CommandSpec::new("femboy").name_localized("ru", "фембой").description(">w<");
        assert(pairs_view(c.name_localizations@) =~= seq![("ru"@, "фембой"@)]);
        c
    }

    /// The answer that shows the `index`-th picture.
    pub fn response_for(index: usize) -> (r: DiscordCommandResponse)
        requires
            index < FEMBOY_IMAGE_COUNT,
        ensures
            is_followup_text(r, femboy_image_url(index as int), false),
    {
        DiscordCommandResponse::followup_response(femboy_image(index), false)
    }

    /// Answers with a randomly chosen picture, in public.
    pub fn handler(&self, _opts: &Vec<CommandOption>) -> (r: DiscordCommandResponse)
        ensures
            exists|i: int|
                0 <= i < FEMBOY_IMAGE_COUNT && is_followup_text(
                    r,
                    #[trigger] femboy_image_url(i),
                    false,
                ),
    {
        let index = random_index_below(FEMBOY_IMAGE_COUNT);
        Self::response_for(index)
    }
}

} // verus!
