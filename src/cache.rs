use vstd::prelude::*;

use std::collections::HashMap;

use crate::emoji::ServerConfiguration;

verus! {

broadcast use vstd::std_specs::hash::group_hash_axioms;

/// The configuration stored for `guild`, if any.
pub open spec fn config_lookup(table: Map<u64, ServerConfiguration>, guild: u64) -> Option<
    ServerConfiguration,
> {
    if table.dom().contains(guild) {
        Some(table[guild])
    } else {
        None
    }
}

/// Every cached entry holds what the table holds for its guild.
pub open spec fn cache_consistent(
    cached: Map<u64, Option<ServerConfiguration>>,
    table: Map<u64, ServerConfiguration>,
) -> bool {
    forall|g: u64| #[trigger] cached.dom().contains(g) ==> cached[g] == config_lookup(table, g)
}

/// What a read-through read of `guild` returns: the cached entry where there
/// is one, else what the table holds.
pub open spec fn cached_read(
    cached: Map<u64, Option<ServerConfiguration>>,
    table: Map<u64, ServerConfiguration>,
    guild: u64,
) -> Option<ServerConfiguration> {
    if cached.dom().contains(guild) {
        cached[guild]
    } else {
        config_lookup(table, guild)
    }
}

/// A copy of an optional configuration.
pub fn duplicate_config(c: Option<&ServerConfiguration>) -> (r: Option<ServerConfiguration>)
    ensures
        r == match c {
            Some(x) => Some(*x),
            None => None::<ServerConfiguration>,
        },
{
    match c {
        Some(x) => Some(x.duplicate()),
        None => None,
    }
}

/// Per-guild cache of resolved configurations. An entry of `None` records
/// that the guild has no configuration.
pub struct Cache {
    server_configs: HashMap<u64, Option<ServerConfiguration>>,
}

impl Cache {
    /// The cached entries, by guild.
    pub closed spec fn entries(&self) -> Map<u64, Option<ServerConfiguration>> {
        self.server_configs@
    }

    /// An empty cache.
    pub fn new() -> (r: Cache)
        ensures
            r.entries() == Map::<u64, Option<ServerConfiguration>>::empty(),
    {
        Cache { server_configs: HashMap::new() }
    }

    /// Forgets the entry of `server`.
    pub fn wipe_server_config_cache(&mut self, server: u64)
        ensures
            final(self).entries() == old(self).entries().remove(server),
    {
        self.server_configs.remove(&server);
    }

    /// The cached entry of `guild`, if there is one.
    pub fn lookup(&self, guild: u64) -> (r: Option<Option<ServerConfiguration>>)
        ensures
            r == (if self.entries().dom().contains(guild) {
                Some(self.entries()[guild])
            } else {
                None
            }),
    {
        match self.server_configs.get(&guild) {
            Some(entry) => Some(duplicate_config(entry.as_ref())),
            None => None,
        }
    }

    /// Records `config` as the entry of `guild`.
    pub fn store(&mut self, guild: u64, config: Option<ServerConfiguration>)
        ensures
            final(self).entries() == old(self).entries().insert(guild, config),
    {
        self.server_configs.insert(guild, config);
    }
}

/// Reads stay right across writes: once a write of `config` for `guild` has
/// committed to the table and evicted the guild's cache entry, the cache is
/// consistent with the table again and the next read of `guild` returns
/// `config`, whatever had been cached for it before.
pub proof fn lemma_read_after_write(
    cached: Map<u64, Option<ServerConfiguration>>,
    table: Map<u64, ServerConfiguration>,
    guild: u64,
    config: ServerConfiguration,
)
    requires
        cache_consistent(cached, table),
    ensures
        cache_consistent(cached.remove(guild), table.insert(guild, config)),
        cached_read(cached.remove(guild), table.insert(guild, config), guild) == Some(config),
{
    let c2 = cached.remove(guild);
    let t2 = table.insert(guild, config);
    assert forall|g: u64| #[trigger] c2.dom().contains(g) implies c2[g] == config_lookup(t2, g) by {
        assert(cached.dom().contains(g));
        assert(g != guild);
    }
}

} // verus!
