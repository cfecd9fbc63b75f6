use vstd::prelude::*;

verus! {

/// Per-guild persisted configuration that the core reads and updates.
pub struct GuildSettings {
    pub guild_id: u64,
    pub autopause: bool,
    pub allowed_domains: Vec<String>,
    pub banned_domains: Vec<String>,
}

/// The domain a new guild may play from before anyone changes its lists.
pub const DEFAULT_ALLOWED_DOMAIN: &'static str = "youtube.com";

impl GuildSettings {
    /// Settings for a guild seen for the first time: autopause off, only the
    /// default domain allowed, nothing banned.
    pub fn new(guild_id: u64) -> (r: GuildSettings)
        ensures
            r.guild_id == guild_id,
            !r.autopause,
            r.allowed_domains@.len() == 1,
            r.allowed_domains@[0]@ == DEFAULT_ALLOWED_DOMAIN@,
            r.banned_domains@.len() == 0,
    {
        let mut allowed: Vec<String> = Vec::new();
        allowed.push(DEFAULT_ALLOWED_DOMAIN.to_owned());
        GuildSettings { guild_id, autopause: false, allowed_domains: allowed, banned_domains: Vec::new() }
    }

    /// Flips the autopause flag and leaves the rest as it was.
    pub fn toggle_autopause(&mut self)
        ensures
            final(self).autopause == !old(self).autopause,
            final(self).guild_id == old(self).guild_id,
            final(self).allowed_domains@ == old(self).allowed_domains@,
            final(self).banned_domains@ == old(self).banned_domains@,
    {
        self.autopause = !self.autopause;
    }
}

} // verus!
