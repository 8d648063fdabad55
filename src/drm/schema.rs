use vstd::prelude::*;

verus! {

/// The streamer's own vote on a map.
#[derive(Debug, Clone, Copy, PartialEq, Eq, Structural)]
pub enum VoteStatus {
    NoVote,
    Liked,
    Disliked,
}

/// One difficulty of a map. Fractional values are kept in hundredths
/// (`17.25` is `1725`).
#[derive(Debug, Clone)]
pub struct DRMMapDiff {
    pub difficulty: String,
    pub characteristic: String,
    pub note_jump_speed: i64,
    pub notes_per_second: i64,
    pub map_mods: MapMods,
    pub scoresaber_stars: i64,
    pub beatleader_stars: i64,
}

/// Mods a difficulty uses.
#[derive(Debug, Clone, Copy, PartialEq, Eq, Default)]
pub struct MapMods {
    pub chroma: bool,
    pub cinema: bool,
    pub mapping_extensions: bool,
    pub noodle_extensions: bool,
    pub vivify: bool,
}

/// A map as the request manager describes it. Times are Unix seconds; the
/// rating is kept in hundredths of a percent (a rating of `0.8765` is `8765`).
#[derive(Debug, Clone)]
pub struct DRMMap {
    pub bsr_key: String,
    pub hash: String,
    pub user: Option<String>,
    pub title: String,
    pub censor_title: bool,
    pub sub_title: String,
    pub censor_sub_title: bool,
    pub artist: String,
    pub censor_artist: bool,
    pub mapper: String,
    pub censor_mapper: bool,
    pub metadata_has_spliced_censor: bool,
    pub duration: i32,
    pub votes: Vec<i32>,
    pub rating: i64,
    pub upload_time: i64,
    pub last_updated: i64,
    pub cover: String,
    pub automapped: bool,
    pub scoresaber_ranked: bool,
    pub beatleader_ranked: bool,
    pub curated: bool,
    pub curator_name: String,
    pub playlists: Vec<String>,
    pub vote_status: VoteStatus,
    pub chroma: bool,
    pub cinema: bool,
    pub mapping_extensions: bool,
    pub noodle_extensions: bool,
    pub vivify: bool,
    pub from_local_map: bool,
    pub from_local_cache: bool,
    pub from_beatsaver: bool,
    pub has_played: bool,
    pub blacklisted: bool,
    pub diffs: Vec<DRMMapDiff>,
}

/// A map in the queue with its position.
#[derive(Debug, Clone)]
pub struct DRMQueueItem {
    pub spot: i32,
    pub queue_item: DRMMap,
}

/// A map that was played, and when.
#[derive(Debug, Clone)]
pub struct DRMHistoryItem {
    pub timestamp: i64,
    pub history_item: DRMMap,
}

/// A plain reply of the request manager.
#[derive(Debug, Clone)]
pub struct DRMMessage {
    pub message: String,
}

/// The request manager's queue status reply.
#[derive(Debug, Clone, Copy, PartialEq, Eq)]
pub struct DRMQueueMessage {
    pub queue_open: bool,
}

} // verus!
