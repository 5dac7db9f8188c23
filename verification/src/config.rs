//! The settings of the service.

use vstd::prelude::*;
use core::time::Duration;
use crate::request::{CacheBias, RenderRequestEntry};

verus! {

/// The length of a duration in nanoseconds.
pub uninterp spec fn duration_nanos(duration: Duration) -> nat;

/// The length of the longest duration in nanoseconds.
pub const MAX_DURATION_NANOS: u128 = 18_446_744_073_709_551_615_999_999_999;

/// `core::time::Duration::as_nanos`: the length of the duration in
/// nanoseconds.
#[verifier::external_body]
fn duration_as_nanos(duration: &Duration) -> (nanos: u128)
    ensures
        nanos == duration_nanos(*duration),
{
    duration.as_nanos()
}

/// `core::time::Duration::MAX`: the longest duration, `u64::MAX` seconds
/// and 999,999,999 nanoseconds long.
#[verifier::external_body]
fn max_duration() -> (duration: &'static Duration)
    ensures
        duration_nanos(*duration) == MAX_DURATION_NANOS,
{
    &Duration::MAX
}

/// Where the server listens.
#[derive(Debug)]
pub struct ServerConfiguration {
    /// The address to bind the server to.
    pub address: String,
    /// The port to bind the server to.
    pub port: u16,
}

/// Where traces are sent.
#[derive(Debug)]
pub struct TracingConfiguration {
    /// The endpoint to send traces to.
    pub endpoint: String,
    /// The service name to use for traces.
    pub service_name: String,
}

/// How models are drawn.
#[derive(Debug)]
pub struct RenderingConfiguration {
    /// The number of samples per pixel.
    pub sample_count: u32,
    /// Whether edges are smoothed after drawing.
    pub use_smaa: bool,
}

/// Which servers player data comes from.
#[derive(Debug)]
pub struct MojankConfiguration {
    /// The server that resolves players to their textures.
    pub session_server: String,
    /// The server that textures are downloaded from.
    pub textures_server: String,
    /// The server that resolves bedrock players.
    pub geysermc_api_server: String,
    /// How many requests go to the session server within a second.
    pub session_server_rate_limit: u64,
}

/// For how long what was resolved and fetched is kept.
///
/// `cache_biases` holds the entries that do not follow the rule, each with
/// its own bias. Where two of them name the same entry, the first one
/// counts.
#[derive(Debug)]
pub struct ModelCacheConfiguration {
    /// How often the cache is cleaned up.
    pub cleanup_interval: Duration,
    /// For how long a resolved entry is kept.
    pub resolve_cache_duration: Duration,
    /// For how long a texture is kept.
    pub texture_cache_duration: Duration,
    /// The entries that are kept for a time of their own.
    pub cache_biases: Vec<(RenderRequestEntry, CacheBias)>,
}

/// All settings.
#[derive(Debug)]
pub struct NmsrConfiguration {
    pub server: ServerConfiguration,
    pub tracing: Option<TracingConfiguration>,
    pub caching: ModelCacheConfiguration,
    pub mojank: MojankConfiguration,
    pub rendering: Option<RenderingConfiguration>,
}

/// The place of the first of `biases` that names `entry`, or the length of
/// `biases` where none does.
pub open spec fn bias_position(
    biases: Seq<(RenderRequestEntry, CacheBias)>,
    entry: RenderRequestEntry,
) -> int
    decreases biases.len(),
{
    if biases.len() == 0 {
        0
    } else if biases.first().0.same_entry(&entry) {
        0
    } else {
        1 + bias_position(biases.drop_first(), entry)
    }
}

/// The position is a place in `biases` or their length; it names `entry`
/// where it is a place, and no place before it does.
pub proof fn lemma_bias_position(
    biases: Seq<(RenderRequestEntry, CacheBias)>,
    entry: RenderRequestEntry,
)
    ensures
        0 <= bias_position(biases, entry) <= biases.len(),
        bias_position(biases, entry) < biases.len() ==> biases[bias_position(
            biases,
            entry,
        )].0.same_entry(&entry),
        forall|i: int|
            0 <= i < bias_position(biases, entry) ==> !(#[trigger] biases[i]).0.same_entry(&entry),
    decreases biases.len(),
{
    if biases.len() > 0 && !biases.first().0.same_entry(&entry) {
        let rest = biases.drop_first();
        lemma_bias_position(rest, entry);
        assert forall|i: int| 0 <= i < bias_position(biases, entry) implies !(#[trigger] biases[i]).0.same_entry(
        &entry) by {
            if i > 0 {
                assert(biases[i] == rest[i - 1]);
            }
        }
        if bias_position(biases, entry) < biases.len() {
            assert(biases[bias_position(biases, entry)] == rest[bias_position(rest, entry)]);
        }
    }
}

/// A place that names `entry` and has no place before it that does is the
/// position of `entry`.
pub proof fn lemma_first_match_is_position(
    biases: Seq<(RenderRequestEntry, CacheBias)>,
    entry: RenderRequestEntry,
    place: int,
)
    requires
        0 <= place <= biases.len(),
        place < biases.len() ==> biases[place].0.same_entry(&entry),
        forall|i: int| 0 <= i < place ==> !(#[trigger] biases[i]).0.same_entry(&entry),
    ensures
        bias_position(biases, entry) == place,
{
    lemma_bias_position(biases, entry);
    let position = bias_position(biases, entry);
    if position < place {
        assert(!biases[position].0.same_entry(&entry));
    }
}

impl ModelCacheConfiguration {
    /// The bias of `entry`, if it has one.
    pub open spec fn bias(&self, entry: RenderRequestEntry) -> Option<CacheBias> {
        let position = bias_position(self.cache_biases@, entry);
        if position < self.cache_biases@.len() {
            Some(self.cache_biases@[position].1)
        } else {
            None
        }
    }

    /// Whether `duration` is the time that `entry` is kept for, where
    /// entries without a bias are kept for `default_duration`: the time of
    /// its bias, the longest duration where the bias is to keep it for good.
    pub open spec fn is_cache_duration(
        &self,
        entry: RenderRequestEntry,
        default_duration: Duration,
        duration: Duration,
    ) -> bool {
        match self.bias(entry) {
            Some(CacheBias::KeepCachedFor(kept)) => duration == kept,
            Some(CacheBias::CacheIndefinitely) => duration_nanos(duration) == MAX_DURATION_NANOS,
            None => duration == default_duration,
        }
    }

    /// For how long a resolved entry is kept.
    pub fn get_cache_duration(&self, entry: &RenderRequestEntry) -> (duration: &Duration)
        ensures
            self.is_cache_duration(*entry, self.resolve_cache_duration, *duration),
    {
        self.get_cache_duration_with_default(entry, &self.resolve_cache_duration)
    }

    /// For how long `entry` is kept, where entries without a bias are kept
    /// for `default_duration`.
    pub fn get_cache_duration_with_default<'a>(
        &'a self,
        entry: &RenderRequestEntry,
        default_duration: &'a Duration,
    ) -> (duration: &'a Duration)
        ensures
            self.is_cache_duration(*entry, *default_duration, *duration),
    {
        let mut i: usize = 0;
        while i < self.cache_biases.len()
            invariant
                i <= self.cache_biases@.len(),
                forall|k: int|
                    0 <= k < i ==> !(#[trigger] self.cache_biases@[k]).0.same_entry(entry),
            decreases self.cache_biases@.len() - i,
        {
            if self.cache_biases[i].0.is_same_entry(entry) {
                proof {
                    lemma_first_match_is_position(self.cache_biases@, *entry, i as int);
                }
                return match &self.cache_biases[i].1 {
                    CacheBias::KeepCachedFor(duration) => duration,
                    CacheBias::CacheIndefinitely => max_duration(),
                };
            }
            i = i + 1;
        }
        proof {
            lemma_first_match_is_position(self.cache_biases@, *entry, i as int);
        }
        default_duration
    }

    /// Whether what was kept for `entry` since `modified` is out of date at
    /// the time `now`, both counted from the same start. What is kept for
    /// the longest duration never is.
    pub fn is_expired_at(
        &self,
        entry: &RenderRequestEntry,
        modified: &Duration,
        now: &Duration,
    ) -> (expired: bool)
        ensures
            exists|duration: Duration|
                #[trigger] self.is_cache_duration(*entry, self.resolve_cache_duration, duration)
                    && expired == expires_before(
                    duration_nanos(duration),
                    duration_nanos(*modified),
                    duration_nanos(*now),
                ),
    {
        self.is_expired_at_with_default(entry, modified, now, &self.resolve_cache_duration)
    }

    /// As `is_expired_at`, with entries without a bias kept for
    /// `default_duration`.
    pub fn is_expired_at_with_default(
        &self,
        entry: &RenderRequestEntry,
        modified: &Duration,
        now: &Duration,
        default_duration: &Duration,
    ) -> (expired: bool)
        ensures
            exists|duration: Duration|
                #[trigger] self.is_cache_duration(*entry, *default_duration, duration) && expired
                    == expires_before(
                    duration_nanos(duration),
                    duration_nanos(*modified),
                    duration_nanos(*now),
                ),
    {
        let duration = self.get_cache_duration_with_default(entry, default_duration);
        let expired = expires_before_exec(
            duration_as_nanos(duration),
            duration_as_nanos(modified),
            duration_as_nanos(now),
        );
        assert(self.is_cache_duration(*entry, *default_duration, *duration));
        expired
    }
}

/// Whether what is kept for `kept` nanoseconds since `modified` is out of
/// date at `now`: never where it is kept for the longest duration, else
/// where the time it is kept until lies before `now`.
pub open spec fn expires_before(kept: nat, modified: nat, now: nat) -> bool {
    kept != MAX_DURATION_NANOS && modified + kept < now
}

fn expires_before_exec(kept: u128, modified: u128, now: u128) -> (expired: bool)
    ensures
        expired == expires_before(kept as nat, modified as nat, now as nat),
{
    if kept == MAX_DURATION_NANOS {
        false
    } else if now < modified {
        false
    } else {
        kept < now - modified
    }
}

pub fn default_session_server_rate_limit() -> (limit: u64)
    ensures
        limit == 10,
{
    10
}

pub fn default_service_name() -> (name: String)
    ensures
        name@ == "nmsr-aas"@,
{
    "nmsr-aas".to_owned()
}

pub fn default_session_server() -> (server: String)
    ensures
        server@ == "https://sessionserver.mojang.com/"@,
{
    "https://sessionserver.mojang.com/".to_owned()
}

pub fn default_textures_server() -> (server: String)
    ensures
        server@ == "https://textures.minecraft.net"@,
{
    "https://textures.minecraft.net".to_owned()
}

pub fn default_geyser_api_server() -> (server: String)
    ensures
        server@ == "https://api.geysermc.org/"@,
{
    "https://api.geysermc.org/".to_owned()
}

/// The sample counts a device may support, the highest first.
pub open spec fn sample_counts() -> Seq<u32> {
    seq![16u32, 8u32, 4u32, 2u32, 1u32]
}

/// The place of the first supported sample count, or 5 where none is
/// supported.
pub open spec fn first_supported(supported: Seq<bool>) -> int
    recommends
        supported.len() == 5,
{
    if supported[0] {
        0
    } else if supported[1] {
        1
    } else if supported[2] {
        2
    } else if supported[3] {
        3
    } else if supported[4] {
        4
    } else {
        5
    }
}

/// The number of samples per pixel to draw with: the requested one where
/// there is one, else the highest that the device supports, else one.
/// `supported` says of each of 16, 8, 4, 2 and 1 whether the device
/// supports it.
pub fn max_available_sample_count(requested: Option<u32>, supported: &[bool; 5]) -> (count: u32)
    ensures
        count == match requested {
            Some(count) => count,
            None => if first_supported(supported@) < 5 {
                sample_counts()[first_supported(supported@)]
            } else {
                1
            },
        },
{
    if let Some(count) = requested {
        return count;
    }
    let counts: [u32; 5] = [16, 8, 4, 2, 1];
    let mut i: usize = 0;
    while i < 5
        invariant
            i <= 5,
            requested is None,
            counts@ == sample_counts(),
            forall|k: int| 0 <= k < i ==> !supported@[k],
        decreases 5 - i,
    {
        if supported[i] {
            return counts[i];
        }
        i = i + 1;
    }
    1
}

} // verus!
