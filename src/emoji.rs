use vstd::prelude::*;

verus! {

/// An emoji as the chat platform reports it on a reaction: a unicode glyph,
/// or the id of a custom emoji.
#[derive(Debug)]
pub enum ReactionEmoji {
    Unicode(String),
    Custom(u64),
}

/// The glyph that flags a message when a guild has no configuration.
pub const DEFAULT_REPORT_GLYPH: &'static str = "🚩";

/// Re-renders the views of a report.
pub const REFRESH_GLYPH: &'static str = "🔄";

/// Lets the reporter replace the reason of a report.
pub const EDIT_GLYPH: &'static str = "📝";

/// A moderator's intent to review a report.
pub const CLAIM_GLYPH: &'static str = "🛄";

/// Rejects a report.
pub const REJECT_GLYPH: &'static str = "❌";

/// Accepts a report.
pub const ACCEPT_GLYPH: &'static str = "✅";

/// Two emoji are the same: equal glyphs, or equal custom ids.
pub open spec fn same_emoji(a: ReactionEmoji, b: ReactionEmoji) -> bool {
    match (a, b) {
        (ReactionEmoji::Unicode(x), ReactionEmoji::Unicode(y)) => x@ == y@,
        (ReactionEmoji::Custom(x), ReactionEmoji::Custom(y)) => x == y,
        _ => false,
    }
}

/// The emoji is the unicode glyph `glyph`.
pub open spec fn is_glyph(e: ReactionEmoji, glyph: Seq<char>) -> bool {
    match e {
        ReactionEmoji::Unicode(s) => s@ == glyph,
        ReactionEmoji::Custom(_) => false,
    }
}

impl ReactionEmoji {
    /// A copy of the emoji.
    pub fn duplicate(&self) -> (r: ReactionEmoji)
        ensures
            r == *self,
    {
        match self {
            ReactionEmoji::Unicode(s) => ReactionEmoji::Unicode(s.clone()),
            ReactionEmoji::Custom(id) => ReactionEmoji::Custom(*id),
        }
    }

    /// Whether two emoji are the same.
    pub fn same_as(&self, other: &ReactionEmoji) -> (r: bool)
        ensures
            r == same_emoji(*self, *other),
    {
        match (self, other) {
            (ReactionEmoji::Unicode(x), ReactionEmoji::Unicode(y)) => *x == *y,
            (ReactionEmoji::Custom(x), ReactionEmoji::Custom(y)) => *x == *y,
            _ => false,
        }
    }
}

/// Whether the emoji is the unicode glyph `unicode_str`.
pub fn is_unicode_emoji(reaction_type: &ReactionEmoji, unicode_str: &str) -> (r: bool)
    ensures
        r == is_glyph(*reaction_type, unicode_str@),
{
    match reaction_type {
        ReactionEmoji::Unicode(s) => {
            let glyph = unicode_str.to_owned();
            *s == glyph
        },
        ReactionEmoji::Custom(_) => false,
    }
}

/// Whether the emoji is the refresh glyph.
pub fn is_refresh_emoji(emoji: &ReactionEmoji) -> (r: bool)
    ensures
        r == is_glyph(*emoji, REFRESH_GLYPH@),
{
    is_unicode_emoji(emoji, REFRESH_GLYPH)
}

/// Whether the emoji is the edit glyph.
pub fn is_edit_emoji(emoji: &ReactionEmoji) -> (r: bool)
    ensures
        r == is_glyph(*emoji, EDIT_GLYPH@),
{
    is_unicode_emoji(emoji, EDIT_GLYPH)
}

/// Whether the emoji is the claim glyph.
pub fn is_claim_emoji(emoji: &ReactionEmoji) -> (r: bool)
    ensures
        r == is_glyph(*emoji, CLAIM_GLYPH@),
{
    is_unicode_emoji(emoji, CLAIM_GLYPH)
}

/// Whether the emoji is the reject glyph.
pub fn is_reject_emoji(emoji: &ReactionEmoji) -> (r: bool)
    ensures
        r == is_glyph(*emoji, REJECT_GLYPH@),
{
    is_unicode_emoji(emoji, REJECT_GLYPH)
}

/// Whether the emoji is the accept glyph.
pub fn is_accept_emoji(emoji: &ReactionEmoji) -> (r: bool)
    ensures
        r == is_glyph(*emoji, ACCEPT_GLYPH@),
{
    is_unicode_emoji(emoji, ACCEPT_GLYPH)
}

/// A guild's configuration, as written by the setup flow.
///
/// The report emoji is either a builtin glyph or a custom emoji id, never both.
#[derive(Debug)]
pub struct ServerConfiguration {
    pub reports_channel: u64,
    pub report_emoji: ReactionEmoji,
    pub prefix: Option<String>,
}

/// A copy of an optional string.
pub fn duplicate_text(s: &Option<String>) -> (r: Option<String>)
    ensures
        r == *s,
{
    match s {
        Some(t) => Some(t.clone()),
        None => None,
    }
}

/// The emoji flags a message in a guild configured with `config`.
pub open spec fn matches_emoji_spec(config: ServerConfiguration, emoji: ReactionEmoji) -> bool {
    same_emoji(config.report_emoji, emoji)
}

/// The emoji flags a message in a guild with configuration `config`, or in a
/// guild without one (`None`), where the default flag glyph does.
pub open spec fn matches_server_emoji_spec(
    emoji: ReactionEmoji,
    config: Option<ServerConfiguration>,
) -> bool {
    match config {
        Some(c) => matches_emoji_spec(c, emoji),
        None => is_glyph(emoji, DEFAULT_REPORT_GLYPH@),
    }
}

impl ServerConfiguration {
    /// A copy of the configuration.
    pub fn duplicate(&self) -> (r: ServerConfiguration)
        ensures
            r == *self,
    {
        ServerConfiguration {
            reports_channel: self.reports_channel,
            report_emoji: self.report_emoji.duplicate(),
            prefix: duplicate_text(&self.prefix),
        }
    }

    /// Whether `emoji` is this guild's report emoji: the same custom id where
    /// a custom emoji is configured, the same glyph where a builtin one is.
    pub fn matches_emoji(&self, emoji: &ReactionEmoji) -> (r: bool)
        ensures
            r == matches_emoji_spec(*self, *emoji),
    {
        self.report_emoji.same_as(emoji)
    }
}

/// Whether `emoji` is the report emoji of a guild whose configuration is
/// `server_config` (`None`: the guild is unconfigured).
pub fn matches_server_emoji(emoji: &ReactionEmoji, server_config: Option<&ServerConfiguration>) -> (r:
    bool)
    ensures
        r == matches_server_emoji_spec(
            *emoji,
            match server_config {
                Some(c) => Some(*c),
                None => None,
            },
        ),
{
    match server_config {
        Some(config) => config.matches_emoji(emoji),
        None => is_unicode_emoji(emoji, DEFAULT_REPORT_GLYPH),
    }
}

} // verus!
