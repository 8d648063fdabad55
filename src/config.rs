use vstd::prelude::*;

verus! {

/// Where the request manager's HTTP interface listens.
#[derive(Debug, Default, Clone)]
pub struct DRMConfig {
    pub url: String,
    pub port: u32,
}

/// Limits on the queue. A maximum of zero means no limit.
#[derive(Debug, Default, Clone, Copy, PartialEq, Eq)]
pub struct QueueConfig {
    pub session_max: u32,
    pub queue_max: u32,
    /// The same map may sit in the queue more than once.
    pub repeat: bool,
    /// A map already played this session may be requested again.
    pub replay: bool,
}

/// Upload date limits.
#[derive(Debug, Default, Clone, Copy, PartialEq, Eq)]
pub struct BSRDateConfig {
    /// The earliest allowed upload day, counted in days from 1970-01-01.
    pub earliest: i64,
    /// The minimum age of a map in days; zero means no minimum.
    pub min_age: i32,
}

/// A window of whole numbers; a bound of zero is switched off.
#[derive(Debug, Default, Clone, Copy, PartialEq, Eq)]
pub struct IntRange {
    pub min: i32,
    pub max: i32,
}

/// A window of fractional values, each kept in hundredths (`5.5` is `550`);
/// a bound of zero is switched off.
#[derive(Debug, Default, Clone, Copy, PartialEq, Eq)]
pub struct FloatRange {
    pub min: i64,
    pub max: i64,
}

/// Rules on the maps themselves.
#[derive(Debug, Default, Clone, Copy, PartialEq, Eq)]
pub struct BSRConfig {
    pub censors: BSRCensorConfig,
    pub allow_ai: bool,
    /// The minimum rating in hundredths of a percent (`75.5%` is `7550`).
    pub min_rating: i64,
    pub date: BSRDateConfig,
    /// Duration window in seconds.
    pub length: IntRange,
    /// Notes-per-second window.
    pub nps: FloatRange,
    /// Note-jump-speed window.
    pub njs: FloatRange,
}

/// What to do with censored metadata.
#[derive(Debug, Default, Clone, Copy, PartialEq, Eq)]
pub struct BSRCensorConfig {
    pub deny_censored: bool,
    /// Also deny maps whose only flagged text looks like a web domain.
    pub deny_urls: bool,
}

/// How the streamer's own vote on a map counts.
#[derive(Debug, Default, Clone, Copy, PartialEq, Eq)]
pub struct MapVoteConfig {
    pub allow_liked: bool,
    pub deny_disliked: bool,
}

/// The whole configuration.
#[derive(Debug, Default, Clone)]
pub struct SDRMMConfig {
    pub drm: DRMConfig,
    pub queue: QueueConfig,
    pub bsr: BSRConfig,
    pub map_vote: MapVoteConfig,
    /// Maps in any of these playlists skip the remaining checks.
    pub allowed_playlists: Option<Vec<String>>,
    pub banned_mappers: Option<Vec<String>>,
}

} // verus!
