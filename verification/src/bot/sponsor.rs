//! The sponsor watcher's decisions.
//!
//! Every few minutes the watcher goes through the stored sponsorships: it
//! revokes the role and deletes the record of an expired sponsorship, and
//! re-issues the role to an active sponsor that is missing it. Each record
//! carries its own role, so several sponsor roles are managed independently.
//! What to do with one record is decided here; talking to Discord and to the
//! database is left to whoever runs the watcher.

use vstd::prelude::*;

use crate::decimal::{decimal_text, lemma_parse_u64_of_decimal_text, parse_u64, spec_parse_u64};
use crate::services::Sponsorship;

verus! {

/// How often the sponsor watcher re-checks every stored sponsorship, in
/// seconds.
pub const CHECK_INTERVAL_SECS: u64 = 300;

/// What to do with one sponsorship record.
#[derive(Debug, PartialEq, Eq, Structural)]
pub enum SponsorshipCheck {
    /// The stored user id is not a number: skip the record.
    InvalidUser,
    /// The stored role id is not a number: skip the record.
    InvalidRole,
    /// Expired: take the role away in every guild, then delete the record.
    Revoke { user_id: u64, role_id: u64 },
    /// Active: give the role back in every guild where the member lacks it.
    Keep { user_id: u64, role_id: u64 },
}

/// The sponsorship has run out at `now`.
pub open spec fn is_expired(expires_at: Option<i64>, now: i64) -> bool {
    expires_at matches Some(t) && t <= now
}

/// What to do with a record with these fields at `now`.
pub open spec fn sponsorship_check(
    discord_id: Seq<char>,
    role_id: Seq<char>,
    expires_at: Option<i64>,
    now: i64,
) -> SponsorshipCheck {
    match (spec_parse_u64(discord_id), spec_parse_u64(role_id)) {
        (None, _) => SponsorshipCheck::InvalidUser,
        (Some(_), None) => SponsorshipCheck::InvalidRole,
        (Some(user_id), Some(role_id)) => if is_expired(expires_at, now) {
            SponsorshipCheck::Revoke { user_id, role_id }
        } else {
            SponsorshipCheck::Keep { user_id, role_id }
        },
    }
}

/// Decides what to do with one sponsorship record at `now`.
pub fn check_sponsorship(sponsorship: &Sponsorship, now: i64) -> (c: SponsorshipCheck)
    ensures
        c == sponsorship_check(
            sponsorship.discord_id@,
            sponsorship.role_id@,
            sponsorship.expires_at,
            now,
        ),
{
    let user_id = match parse_u64(sponsorship.discord_id.as_str()) {
        Some(id) => id,
        None => {
            return SponsorshipCheck::InvalidUser;
        },
    };
    let role_id = match parse_u64(sponsorship.role_id.as_str()) {
        Some(id) => id,
        None => {
            return SponsorshipCheck::InvalidRole;
        },
    };
    let expired = match sponsorship.expires_at {
        Some(t) => t <= now,
        None => false,
    };
    if expired {
        SponsorshipCheck::Revoke { user_id, role_id }
    } else {
        SponsorshipCheck::Keep { user_id, role_id }
    }
}

/// Whether an active sponsor with these roles has to be given `role` again.
pub fn needs_role(member_roles: &Vec<u64>, role: u64) -> (r: bool)
    ensures
        r == !member_roles@.contains(role),
{
    for i in 0..member_roles.len()
        invariant
            !member_roles@.take(i as int).contains(role),
    {
        assert(member_roles@.take(i + 1) =~= member_roles@.take(i as int).push(member_roles@[i as int]));
        if member_roles[i] == role {
            assert(member_roles@[i as int] == role);
            return false;
        }
    }
    assert(member_roles@.take(member_roles.len() as int) =~= member_roles@);
    true
}

/// Whether to give an active sponsor `role` in a guild, from the member's
/// roles there (`None` when the member could not be looked up, most likely
/// because the user is not in that guild, which is then skipped).
pub fn reissue_in_guild(member_roles: Option<&Vec<u64>>, role: u64) -> (r: bool)
    ensures
        r == (match member_roles {
            Some(roles) => !roles@.contains(role),
            None => false,
        }),
{
    match member_roles {
        Some(roles) => needs_role(roles, role),
        None => false,
    }
}

/// A record whose ids are numbers is always acted on: with `u` and `r` the
/// numbers its user and role ids are written as, it is revoked once its end
/// has come (`expires_at <= now`) and kept otherwise. A record is skipped as
/// having an invalid user exactly when its user id is not a number.
pub proof fn lemma_numeric_records_are_acted_on(
    user: u64,
    role: u64,
    discord_id: Seq<char>,
    role_id: Seq<char>,
    expires_at: Option<i64>,
    now: i64,
)
    ensures
        sponsorship_check(decimal_text(user as nat), decimal_text(role as nat), expires_at, now)
            == (match expires_at {
            Some(t) => if t <= now {
                SponsorshipCheck::Revoke { user_id: user, role_id: role }
            } else {
                SponsorshipCheck::Keep { user_id: user, role_id: role }
            },
            None => SponsorshipCheck::Keep { user_id: user, role_id: role },
        }),
        (sponsorship_check(discord_id, role_id, expires_at, now) is InvalidUser) <==> spec_parse_u64(
            discord_id,
        ) is None,
        (sponsorship_check(discord_id, role_id, expires_at, now) is InvalidRole) <==> (
        spec_parse_u64(discord_id) is Some && spec_parse_u64(role_id) is None),
{
    lemma_parse_u64_of_decimal_text(user);
    lemma_parse_u64_of_decimal_text(role);
}

/// A permanent sponsorship is never revoked, whatever the time.
pub proof fn lemma_permanent_never_revoked(discord_id: Seq<char>, role_id: Seq<char>, now: i64)
    ensures
        !(sponsorship_check(discord_id, role_id, None, now) is Revoke),
{
}

/// An expired sponsorship is never given back: once its end has passed, the
/// watcher only revokes it, at that check and at every later one.
pub proof fn lemma_expired_stays_revoked(
    discord_id: Seq<char>,
    role_id: Seq<char>,
    expires_at: Option<i64>,
    now: i64,
    later: i64,
)
    requires
        now <= later,
        sponsorship_check(discord_id, role_id, expires_at, now) is Revoke,
    ensures
        sponsorship_check(discord_id, role_id, expires_at, later) == sponsorship_check(
            discord_id,
            role_id,
            expires_at,
            now,
        ),
{
}

/// A sponsorship that is active now was active at every earlier check.
pub proof fn lemma_active_was_active(
    discord_id: Seq<char>,
    role_id: Seq<char>,
    expires_at: Option<i64>,
    earlier: i64,
    now: i64,
)
    requires
        earlier <= now,
        sponsorship_check(discord_id, role_id, expires_at, now) is Keep,
    ensures
        sponsorship_check(discord_id, role_id, expires_at, earlier) == sponsorship_check(
            discord_id,
            role_id,
            expires_at,
            now,
        ),
{
}

} // verus!
