//! Runtime configuration and the small decisions made from it.
//!
//! Loading the configuration file is I/O and lives outside the
//! library; this is the loaded shape, with the time zone held as its
//! zone-database name.

use vstd::prelude::*;
use vstd::string::StringExecFns;

verus! {

/// The reaction that signs a user up for reminders.
pub fn interested_emoji() -> (r: &'static str)
    ensures
        r@ == "\u{2705}"@,
{
    "\u{2705}"
}

/// The reaction that takes a user off the reminder list.
pub fn uninterested_emoji() -> (r: &'static str)
    ensures
        r@ == "\u{274C}"@,
{
    "\u{274C}"
}

/// The bot's runtime configuration.
#[derive(Debug)]
pub struct HypeBotConfig {
    /// Connection string of the durable store.
    pub db_url: String,
    /// Thumbnail used when a create command carries no valid link.
    pub default_thumbnail_link: String,
    /// Credential for the chat transport.
    pub discord_key: String,
    /// Command prefix.
    pub prefix: String,
    /// Channel that carries the public announcements.
    pub event_channel: u64,
    /// Roles whose members may drive the event commands.
    pub event_roles: Vec<u64>,
    /// Zone-database name of the events' display time zone.
    pub event_timezone: String,
    /// Directory the log files go to.
    pub log_path: String,
}

/// Copy a role list element by element.
fn clone_roles(v: &Vec<u64>) -> (r: Vec<u64>)
    ensures
        r@ == v@,
{
    let mut r: Vec<u64> = Vec::new();
    let n = v.len();
    let mut i: usize = 0;
    while i < n
        invariant
            n == v@.len(),
            0 <= i <= n,
            r@ == v@.subrange(0, i as int),
        decreases n - i,
    {
        r.push(v[i]);
        proof {
            assert(v@.subrange(0, i + 1) =~= v@.subrange(0, i as int).push(v@[i as int]));
        }
        i = i + 1;
    }
    proof {
        assert(v@.subrange(0, n as int) =~= v@);
    }
    r
}

impl Clone for HypeBotConfig {
    fn clone(&self) -> (res: Self)
        ensures
            res.db_url == self.db_url,
            res.default_thumbnail_link == self.default_thumbnail_link,
            res.discord_key == self.discord_key,
            res.prefix == self.prefix,
            res.event_channel == self.event_channel,
            res.event_roles@ == self.event_roles@,
            res.event_timezone == self.event_timezone,
            res.log_path == self.log_path,
    {
        HypeBotConfig {
            db_url: self.db_url.clone(),
            default_thumbnail_link: self.default_thumbnail_link.clone(),
            discord_key: self.discord_key.clone(),
            prefix: self.prefix.clone(),
            event_channel: self.event_channel,
            event_roles: clone_roles(&self.event_roles),
            event_timezone: self.event_timezone.clone(),
            log_path: self.log_path.clone(),
        }
    }
}

impl HypeBotConfig {
    /// Whether this role is one of the configured event roles: the
    /// permission check grants access exactly when the author holds
    /// such a role.
    pub fn is_event_role(&self, role_id: u64) -> (r: bool)
        ensures
            r == self.event_roles@.contains(role_id),
    {
        let n = self.event_roles.len();
        let mut i: usize = 0;
        while i < n
            invariant
                n == self.event_roles@.len(),
                0 <= i <= n,
                forall|k: int| 0 <= k < i ==> (#[trigger] self.event_roles@[k]) != role_id,
            decreases n - i,
        {
            if self.event_roles[i] == role_id {
                return true;
            }
            i = i + 1;
        }
        false
    }

    /// Whether a reaction concerns the reminder list: it must sit in
    /// the event channel and carry the interested emoji.
    pub fn reaction_is_relevant(&self, channel_id: u64, emoji: &String) -> (r: bool)
        ensures
            r == (channel_id == self.event_channel && emoji@ == "\u{2705}"@),
    {
        channel_id == self.event_channel && emoji.eq(&interested_emoji().to_owned())
    }
}

} // verus!
