//! The records the bot keeps in its own database.

use vstd::prelude::*;

verus! {

/// A single sponsorship record stored in the bot database.
///
/// A user may hold several sponsorships at once, one per role.
#[derive(Debug, Clone)]
pub struct Sponsorship {
    pub discord_id: String,
    pub role_id: String,
    /// Unix timestamp (seconds) at which the sponsorship expires.
    /// `None` means the sponsorship is permanent.
    pub expires_at: Option<i64>,
}

} // verus!
