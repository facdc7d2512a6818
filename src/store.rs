//! The cache of guild settings snapshots. A lookup that hits hands out the shared
//! snapshot already stored; on a miss the caller reads the guild's rows from storage
//! and hands what storage answered to `load`, which assembles the snapshot and
//! publishes it, replacing any earlier entry as a whole.
use vstd::prelude::*;
use std::sync::Arc;
use crate::guild::{GuildRows, GuildSettings, assembled_from, is_default_settings, rows_valid};
use crate::settings::DecodeError;

verus! {

#[verifier::external_type_specification]
#[verifier::external_body]
#[verifier::reject_recursive_types(K)]
#[verifier::reject_recursive_types(V)]
#[verifier::reject_recursive_types(S)]
pub struct ExDashMap<K, V, S>(dashmap::DashMap<K, V, S>);

/// The entries that a settings map holds.
pub uninterp spec fn cache_entries(m: dashmap::DashMap<u64, Arc<GuildSettings>>) -> Map<
    u64,
    Arc<GuildSettings>,
>;

/// Relies on `dashmap::DashMap::new`: a map without entries.
#[verifier::external_body]
fn map_new() -> (r: dashmap::DashMap<u64, Arc<GuildSettings>>)
    ensures
        cache_entries(r).dom().len() == 0,
        cache_entries(r).dom().finite(),
{
    dashmap::DashMap::new()
}

/// Relies on `dashmap::DashMap::get`: the value stored under `key`, if any, shared.
#[verifier::external_body]
fn map_get(m: &dashmap::DashMap<u64, Arc<GuildSettings>>, key: u64) -> (r: Option<
    Arc<GuildSettings>,
>)
    ensures
        r is Some <==> cache_entries(*m).contains_key(key),
        r matches Some(v) ==> v == cache_entries(*m)[key],
{
    m.get(&key).map(|entry| Arc::clone(entry.value()))
}

/// Relies on `dashmap::DashMap::insert`: `key` now maps to `value`, replacing any
/// earlier value; the other entries stay.
#[verifier::external_body]
fn map_insert(m: &mut dashmap::DashMap<u64, Arc<GuildSettings>>, key: u64, value: Arc<GuildSettings>)
    ensures
        cache_entries(*final(m)) == cache_entries(*old(m)).insert(key, value),
{
    m.insert(key, value);
}

/// Why the settings of a guild could not be loaded.
#[derive(Debug)]
pub enum LoadError {
    /// Storage could not be read; the message is what it reported.
    Storage(String),
    /// A stored row could not be decoded.
    Decode(DecodeError),
}

/// Maps guild identifiers to their shared settings snapshots.
pub struct GuildHandler {
    cache: dashmap::DashMap<u64, Arc<GuildSettings>>,
}

impl View for GuildHandler {
    type V = Map<u64, Arc<GuildSettings>>;

    closed spec fn view(&self) -> Map<u64, Arc<GuildSettings>> {
        cache_entries(self.cache)
    }
}

impl GuildHandler {
    pub fn new() -> (r: GuildHandler)
        ensures
            r@ == Map::<u64, Arc<GuildSettings>>::empty(),
    {
        GuildHandler { cache: map_new() }
    }

    /// The snapshot cached for the guild, if there is one; no storage is read.
    pub fn cached(&self, guild_id: u64) -> (r: Option<Arc<GuildSettings>>)
        ensures
            r is Some <==> self@.contains_key(guild_id),
            r matches Some(s) ==> s == self@[guild_id],
    {
        map_get(&self.cache, guild_id)
    }

    /// Finishes a lookup that missed, from what storage answered for the guild: an error,
    /// no primary row, or the guild's rows. A storage error is handed on and no row
    /// means the default settings. Otherwise the rows are assembled, and a row that does
    /// not decode fails the load. Only a snapshot that was built is cached, under the
    /// guild, replacing any entry there; on failure the cache is unchanged.
    pub fn load(&mut self, guild_id: u64, fetched: Result<Option<GuildRows>, String>) -> (r: Result<
        Arc<GuildSettings>,
        LoadError,
    >)
        ensures
            match fetched {
                Err(msg) => r matches Err(LoadError::Storage(m)) && m@ == msg@,
                Ok(None) => r matches Ok(s) && is_default_settings(*s),
                Ok(Some(rows)) => {
                    &&& (r is Ok <==> rows_valid(&rows))
                    &&& (r matches Ok(s) ==> assembled_from(&rows, &*s))
                    &&& (r matches Err(e) ==> e is Decode)
                },
            },
            r matches Ok(s) ==> final(self)@ == old(self)@.insert(guild_id, s),
            r is Err ==> final(self)@ == old(self)@,
    {
        let settings = match fetched {
            Err(msg) => {
                return Err(LoadError::Storage(msg));
            },
            Ok(None) => GuildSettings::default(),
            Ok(Some(rows)) => match GuildSettings::assemble(&rows) {
                Ok(s) => s,
                Err(e) => {
                    return Err(LoadError::Decode(e));
                },
            },
        };
        let shared = Arc::new(settings);
        map_insert(&mut self.cache, guild_id, shared.clone());
        Ok(shared)
    }
}

/// Once a load has published a snapshot, a lookup of the same guild hands out that
/// snapshot, until another load for the guild replaces it.
pub proof fn lemma_hit_after_load(
    before: Map<u64, Arc<GuildSettings>>,
    guild_id: u64,
    s: Arc<GuildSettings>,
)
    ensures
        before.insert(guild_id, s).contains_key(guild_id),
        before.insert(guild_id, s)[guild_id] == s,
{
}

} // verus!
