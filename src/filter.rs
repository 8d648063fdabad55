use vstd::prelude::*;

use crate::config::SDRMMConfig;
use crate::drm::schema::{DRMMap, DRMQueueItem, VoteStatus};
use crate::helpers::{
    geq_or_disabled, geq_or_disabled_any, ignore_config, ignore_or_geq, ignore_or_geq_vec,
    ignore_or_leq, ignore_or_leq_vec, is_disabled, leq_or_disabled, leq_or_disabled_any,
    match_in_two_vecs, share_a_string,
};
use crate::text::{
    hundredths_fixed_text, hundredths_text, int_text, nat_text, push_hundredths,
    push_hundredths_fixed, push_int, push_nat,
};

verus! {

/// Seconds in a day.
pub const DAY_SECS: i64 = 86400;

/// Widest day number, either side of 1970-01-01, that dates are written for.
pub const MAX_DATE_DAYS: i64 = 90000000;

/// Widest Unix time, either side of the epoch, that dates are written for.
pub const MAX_DATE_SECS: i64 = 7776000000000;

/// What chrono writes for a Unix time with the pattern "%b %e, %Y".
pub uninterp spec fn date_label(secs: int) -> Seq<char>;

/// Relies on chrono's `DateTime::from_timestamp`, which gives a date for
/// every time in this range, and its "%b %e, %Y" formatting, which depends
/// on the time alone.
#[verifier::external_body]
fn format_date(secs: i64) -> (r: String)
    requires
        -MAX_DATE_SECS <= secs <= MAX_DATE_SECS,
    ensures
        r@ == date_label(secs as int),
{
    chrono::DateTime::from_timestamp(secs, 0).unwrap().format("%b %e, %Y").to_string()
}

/// A Unix time as a calendar date, or as a number of seconds where no date
/// is written for it.
pub open spec fn time_text(secs: int) -> Seq<char> {
    if -MAX_DATE_SECS <= secs <= MAX_DATE_SECS {
        date_label(secs)
    } else {
        int_text(secs)
    }
}

/// A day number as a calendar date, or as the number where no date is
/// written for it.
pub open spec fn day_text(day: int) -> Seq<char> {
    if -MAX_DATE_DAYS <= day <= MAX_DATE_DAYS {
        date_label(day * DAY_SECS)
    } else {
        int_text(day)
    }
}

fn push_time(s: &mut String, secs: i64)
    ensures
        final(s)@ == old(s)@ + time_text(secs as int),
{
    if -MAX_DATE_SECS <= secs && secs <= MAX_DATE_SECS {
        let d = format_date(secs);
        s.append(d.as_str());
    } else {
        push_int(s, secs);
    }
}

fn push_day(s: &mut String, day: i64)
    ensures
        final(s)@ == old(s)@ + day_text(day as int),
{
    if -MAX_DATE_DAYS <= day && day <= MAX_DATE_DAYS {
        let d = format_date(day * DAY_SECS);
        s.append(d.as_str());
    } else {
        push_int(s, day);
    }
}

/// The text holds ".com", ".net" or ".org".
pub open spec fn mentions_tld(s: Seq<char>) -> bool {
    exists|i: int|
        0 <= i && i + 4 <= s.len() && {
            let w = #[trigger] s.subrange(i, i + 4);
            w == seq!['.', 'c', 'o', 'm'] || w == seq!['.', 'n', 'e', 't'] || w == seq![
                '.',
                'o',
                'r',
                'g',
            ]
        }
}

/// Relies on `regex::Regex::is_match` with the pattern `(\.(com|net|org))`:
/// true exactly when the text holds one of the three endings.
#[verifier::external_body]
fn has_tld(s: &str) -> (r: bool)
    ensures
        r == mentions_tld(s@),
{
    regex::Regex::new(r"(\.(com|net|org))").unwrap().is_match(s)
}

/// Why a map was turned away.
#[derive(Debug, Clone, Copy, PartialEq, Eq, Structural)]
pub enum Rejection {
    AlreadyQueued,
    QueueUnknown,
    OpenUnknown,
    QueueClosed,
    QueueCountUnknown,
    TooManyInQueue { max: u32 },
    SessionCountUnknown,
    NoRequestsLeft { max: u32 },
    Censored,
    Disliked,
    Banned,
    RatingUnknown,
    /// Both values in hundredths of a percent.
    RatingTooLow { min: i64, actual: i64 },
    Automapped,
    /// The earliest allowed day, and the upload time.
    TooOld { earliest: i64, uploaded: i64 },
    TooNew { min_age: i32, uploaded: i64 },
    TooShort { min: i32, actual: i32 },
    TooLong { max: i32, actual: i32 },
    AlreadyPlayed,
    NpsTooLow { min: i64 },
    NpsTooHigh { max: i64 },
    NjsTooLow { min: i64 },
    NjsTooHigh { max: i64 },
}

/// The outcome of the admission rules.
#[derive(Debug, Clone, Copy, PartialEq, Eq, Structural)]
pub enum AdmissionResult {
    Accepted,
    Rejected(Rejection),
}

impl Rejection {
    /// The message shown to the user.
    pub open spec fn text(self) -> Seq<char> {
        match self {
            Rejection::AlreadyQueued => "Map is already in queue!"@,
            Rejection::QueueUnknown => "Unable to check whether the map is already in queue."@,
            Rejection::OpenUnknown => "Unable to check whether the queue is open."@,
            Rejection::QueueClosed => "Queue is closed!"@,
            Rejection::QueueCountUnknown => "Unable to count your songs in queue."@,
            Rejection::TooManyInQueue { max } => "You have too many songs in queue! (max is "@
                + nat_text(max as nat) + ")"@,
            Rejection::SessionCountUnknown => "Unable to count your requests this session."@,
            Rejection::NoRequestsLeft { max } => "You have no more requests this session! (max is "@
                + nat_text(max as nat) + ")"@,
            Rejection::Censored => "Map has terms that aren't allowed."@,
            Rejection::Disliked => "The streamer probably doesn't like the map."@,
            Rejection::Banned => "Map is banned from being requested!"@,
            Rejection::RatingUnknown => "Unable to check the map's rating."@,
            Rejection::RatingTooLow { min, actual } => "Map rating is less than "@
                + hundredths_fixed_text(min as int) + "% (is "@ + hundredths_fixed_text(
                actual as int,
            ) + "%)"@,
            Rejection::Automapped => "Map is automapped!"@,
            Rejection::TooOld { earliest, uploaded } => "Map is older than "@ + day_text(
                earliest as int,
            ) + " (uploaded "@ + time_text(uploaded as int) + ")"@,
            Rejection::TooNew { min_age, uploaded } => "Map is less than "@ + int_text(
                min_age as int,
            ) + " days old (uploaded "@ + time_text(uploaded as int) + ")"@,
            Rejection::TooShort { min, actual } => "Map is shorter than "@ + int_text(min as int)
                + " seconds (is "@ + int_text(actual as int) + " seconds)"@,
            Rejection::TooLong { max, actual } => "Map is longer than "@ + int_text(max as int)
                + " seconds (is "@ + int_text(actual as int) + " seconds)"@,
            Rejection::AlreadyPlayed => "Map has already been played this session!"@,
            Rejection::NpsTooLow { min } => "Map does not have a difficulty with NPS higher than "@
                + hundredths_text(min as int),
            Rejection::NpsTooHigh { max } => "Map does not have a difficulty with NPS lower than "@
                + hundredths_text(max as int),
            Rejection::NjsTooLow { min } => "Map does not have a difficulty with NJS higher than "@
                + hundredths_text(min as int),
            Rejection::NjsTooHigh { max } => "Map does not have a difficulty with NJS lower than "@
                + hundredths_text(max as int),
        }
    }

    /// The message shown to the user.
    pub fn message(&self) -> (r: String)
        ensures
            r@ == self.text(),
    {
        match *self {
            Rejection::AlreadyQueued => String::from_str("Map is already in queue!"),
            Rejection::QueueUnknown => String::from_str(
                "Unable to check whether the map is already in queue.",
            ),
            Rejection::OpenUnknown => String::from_str("Unable to check whether the queue is open."),
            Rejection::QueueClosed => String::from_str("Queue is closed!"),
            Rejection::QueueCountUnknown => String::from_str("Unable to count your songs in queue."),
            Rejection::TooManyInQueue { max } => {
                let mut s = String::from_str("You have too many songs in queue! (max is ");
                push_nat(&mut s, max as u64);
                s.append(")");
                s
            },
            Rejection::SessionCountUnknown => String::from_str(
                "Unable to count your requests this session.",
            ),
            Rejection::NoRequestsLeft { max } => {
                let mut s = String::from_str("You have no more requests this session! (max is ");
                push_nat(&mut s, max as u64);
                s.append(")");
                s
            },
            Rejection::Censored => String::from_str("Map has terms that aren't allowed."),
            Rejection::Disliked => String::from_str("The streamer probably doesn't like the map."),
            Rejection::Banned => String::from_str("Map is banned from being requested!"),
            Rejection::RatingUnknown => String::from_str("Unable to check the map's rating."),
            Rejection::RatingTooLow { min, actual } => {
                let mut s = String::from_str("Map rating is less than ");
                push_hundredths_fixed(&mut s, min);
                s.append("% (is ");
                push_hundredths_fixed(&mut s, actual);
                s.append("%)");
                s
            },
            Rejection::Automapped => String::from_str("Map is automapped!"),
            Rejection::TooOld { earliest, uploaded } => {
                let mut s = String::from_str("Map is older than ");
                push_day(&mut s, earliest);
                s.append(" (uploaded ");
                push_time(&mut s, uploaded);
                s.append(")");
                s
            },
            Rejection::TooNew { min_age, uploaded } => {
                let mut s = String::from_str("Map is less than ");
                push_int(&mut s, min_age as i64);
                s.append(" days old (uploaded ");
                push_time(&mut s, uploaded);
                s.append(")");
                s
            },
            Rejection::TooShort { min, actual } => {
                let mut s = String::from_str("Map is shorter than ");
                push_int(&mut s, min as i64);
                s.append(" seconds (is ");
                push_int(&mut s, actual as i64);
                s.append(" seconds)");
                s
            },
            Rejection::TooLong { max, actual } => {
                let mut s = String::from_str("Map is longer than ");
                push_int(&mut s, max as i64);
                s.append(" seconds (is ");
                push_int(&mut s, actual as i64);
                s.append(" seconds)");
                s
            },
            Rejection::AlreadyPlayed => String::from_str("Map has already been played this session!"),
            Rejection::NpsTooLow { min } => {
                let mut s = String::from_str("Map does not have a difficulty with NPS higher than ");
                push_hundredths(&mut s, min);
                s
            },
            Rejection::NpsTooHigh { max } => {
                let mut s = String::from_str("Map does not have a difficulty with NPS lower than ");
                push_hundredths(&mut s, max);
                s
            },
            Rejection::NjsTooLow { min } => {
                let mut s = String::from_str("Map does not have a difficulty with NJS higher than ");
                push_hundredths(&mut s, min);
                s
            },
            Rejection::NjsTooHigh { max } => {
                let mut s = String::from_str("Map does not have a difficulty with NJS lower than ");
                push_hundredths(&mut s, max);
                s
            },
        }
    }
}

/// What the outside world says at the moment of a request. A `None` is a
/// read that failed: every rule that needs it then turns the map away.
#[derive(Debug, Clone)]
pub struct QueueFacts {
    /// Keys of the maps now in the queue.
    pub queued_keys: Option<Vec<String>>,
    pub queue_open: Option<bool>,
    /// How many maps of the requesting user are in the queue.
    pub user_in_queue: Option<u64>,
    /// How many maps the requesting user has asked for this session.
    pub session_requests: Option<i64>,
    /// The map's current rating, in hundredths of a percent.
    pub live_rating: Option<i64>,
    /// The time of the request, in Unix seconds.
    pub now: i64,
}

/// The outcome of reading a user's request counter.
#[derive(Debug, Clone, Copy, PartialEq, Eq, Structural)]
pub enum CounterRead {
    Found(i32),
    /// The user has no counter yet: no requests so far.
    NotFound,
    Failed,
}

/// Keys of a list of maps, in order.
pub open spec fn keys_of(maps: Seq<DRMMap>) -> Seq<Seq<char>> {
    maps.map_values(|m: DRMMap| m.bsr_key@)
}

impl QueueFacts {
    /// Gathers the facts from what was read. A failed read stays unknown, so
    /// that the rules needing it turn the map away; a user without a counter
    /// has made no request yet.
    pub fn from_reads(
        queue: Option<Vec<DRMMap>>,
        queue_open: Option<bool>,
        user_queue: Option<Vec<DRMQueueItem>>,
        session: CounterRead,
        live: Option<DRMMap>,
        now: i64,
    ) -> (r: QueueFacts)
        ensures
            match queue {
                None => r.queued_keys is None,
                Some(q) => r.queued_keys is Some && r.queued_keys.unwrap()@.map_values(
                    |k: String| k@,
                ) == keys_of(q@),
            },
            r.queue_open == queue_open,
            r.user_in_queue == match user_queue {
                None => None,
                Some(u) => Some(u@.len() as u64),
            },
            r.session_requests == match session {
                CounterRead::Found(n) => Some(n as i64),
                CounterRead::NotFound => Some(0i64),
                CounterRead::Failed => None,
            },
            r.live_rating == match live {
                None => None,
                Some(m) => Some(m.rating),
            },
            r.now == now,
    {
        let queued_keys = match &queue {
            None => None,
            Some(q) => {
                let mut keys: Vec<String> = Vec::new();
                let mut i: usize = 0;
                while i < q.len()
                    invariant
                        0 <= i <= q@.len(),
                        keys@.len() == i,
                        forall|j: int| 0 <= j < i ==> #[trigger] keys@[j]@ == q@[j].bsr_key@,
                    decreases q@.len() - i,
                {
                    keys.push(q[i].bsr_key.clone());
                    i = i + 1;
                }
                assert(keys@.map_values(|k: String| k@) =~= keys_of(q@));
                Some(keys)
            },
        };
        let user_in_queue = match &user_queue {
            None => None,
            Some(u) => Some(u.len() as u64),
        };
        let session_requests = match session {
            CounterRead::Found(n) => Some(n as i64),
            CounterRead::NotFound => Some(0i64),
            CounterRead::Failed => None,
        };
        let live_rating = match &live {
            None => None,
            Some(m) => Some(m.rating),
        };
        QueueFacts { queued_keys, queue_open, user_in_queue, session_requests, live_rating, now }
    }
}

/// Some string of `keys` equals `key`.
pub open spec fn holds_key(keys: Seq<String>, key: Seq<char>) -> bool {
    exists|i: int| 0 <= i < keys.len() && #[trigger] keys[i]@ == key
}

/// The map is already queued and repeats are off, or that cannot be known.
pub open spec fn duplicate_rule(map: DRMMap, facts: QueueFacts, config: SDRMMConfig) -> Option<
    Rejection,
> {
    if config.queue.repeat {
        None
    } else {
        match facts.queued_keys {
            None => Some(Rejection::QueueUnknown),
            Some(keys) => if holds_key(keys@, map.bsr_key@) {
                Some(Rejection::AlreadyQueued)
            } else {
                None
            },
        }
    }
}

/// The queue is closed, or its state cannot be read.
pub open spec fn open_rule(facts: QueueFacts) -> Option<Rejection> {
    match facts.queue_open {
        None => Some(Rejection::OpenUnknown),
        Some(open) => if open {
            None
        } else {
            Some(Rejection::QueueClosed)
        },
    }
}

/// The user already has the most maps allowed in the queue.
pub open spec fn queue_cap_rule(facts: QueueFacts, config: SDRMMConfig) -> Option<Rejection> {
    let max = config.queue.queue_max;
    if max == 0 {
        None
    } else {
        match facts.user_in_queue {
            None => Some(Rejection::QueueCountUnknown),
            Some(n) => if n >= max {
                Some(Rejection::TooManyInQueue { max })
            } else {
                None
            },
        }
    }
}

/// The user has used up the requests of this session.
pub open spec fn session_cap_rule(facts: QueueFacts, config: SDRMMConfig) -> Option<Rejection> {
    let max = config.queue.session_max;
    if max == 0 {
        None
    } else {
        match facts.session_requests {
            None => Some(Rejection::SessionCountUnknown),
            Some(n) => if n >= max {
                Some(Rejection::NoRequestsLeft { max })
            } else {
                None
            },
        }
    }
}

/// Some text of the map is flagged for censoring.
pub open spec fn is_censored(map: DRMMap) -> bool {
    map.censor_artist || map.censor_mapper || map.censor_sub_title || map.censor_title
        || map.metadata_has_spliced_censor
}

/// Title, subtitle, artist or mapper looks like it holds a web domain.
pub open spec fn map_has_tld(map: DRMMap) -> bool {
    mentions_tld(map.title@) || mentions_tld(map.sub_title@) || mentions_tld(map.artist@)
        || mentions_tld(map.mapper@)
}

/// Censored maps are denied, unless what was flagged looks like a domain and
/// domains are not denied too.
pub open spec fn censor_rule(map: DRMMap, config: SDRMMConfig) -> bool {
    config.bsr.censors.deny_censored && is_censored(map) && (!map_has_tld(map)
        || config.bsr.censors.deny_urls)
}

/// The map is in one of the allowed playlists.
pub open spec fn playlist_bypass(map: DRMMap, config: SDRMMConfig) -> bool {
    match config.allowed_playlists {
        None => false,
        Some(allowed) => share_a_string(map.playlists@, allowed@),
    }
}

/// The map's current rating is under the minimum, or cannot be read.
pub open spec fn rating_rule(facts: QueueFacts, config: SDRMMConfig) -> Option<Rejection> {
    let min = config.bsr.min_rating;
    if is_disabled(min) {
        None
    } else {
        match facts.live_rating {
            None => Some(Rejection::RatingUnknown),
            Some(r) => if geq_or_disabled(min, r) {
                None
            } else {
                Some(Rejection::RatingTooLow { min, actual: r })
            },
        }
    }
}

/// The map was uploaded before the start of the earliest allowed day.
pub open spec fn too_old(map: DRMMap, config: SDRMMConfig) -> bool {
    map.upload_time < config.bsr.date.earliest * DAY_SECS
}

/// A minimum age is set and the map was uploaded less than that many days
/// before the request.
pub open spec fn too_new(map: DRMMap, facts: QueueFacts, config: SDRMMConfig) -> bool {
    config.bsr.date.min_age != 0 && map.upload_time > facts.now - config.bsr.date.min_age
        * DAY_SECS
}

/// Notes per second of each difficulty, in hundredths.
pub open spec fn nps_of(map: DRMMap) -> Seq<i64> {
    map.diffs@.map_values(|d: crate::drm::schema::DRMMapDiff| d.notes_per_second)
}

/// Note jump speed of each difficulty, in hundredths.
pub open spec fn njs_of(map: DRMMap) -> Seq<i64> {
    map.diffs@.map_values(|d: crate::drm::schema::DRMMapDiff| d.note_jump_speed)
}

/// The rules on the map's own content, in order, after the rating.
pub open spec fn content_rule(map: DRMMap, facts: QueueFacts, config: SDRMMConfig) -> Option<
    Rejection,
> {
    let b = config.bsr;
    if !b.allow_ai && map.automapped {
        Some(Rejection::Automapped)
    } else if too_old(map, config) {
        Some(Rejection::TooOld { earliest: b.date.earliest, uploaded: map.upload_time })
    } else if too_new(map, facts, config) {
        Some(Rejection::TooNew { min_age: b.date.min_age, uploaded: map.upload_time })
    } else if !geq_or_disabled(b.length.min, map.duration) {
        Some(Rejection::TooShort { min: b.length.min, actual: map.duration })
    } else if !leq_or_disabled(b.length.max, map.duration) {
        Some(Rejection::TooLong { max: b.length.max, actual: map.duration })
    } else if !config.queue.replay && map.has_played {
        Some(Rejection::AlreadyPlayed)
    } else if !geq_or_disabled_any(nps_of(map), b.nps.min) {
        Some(Rejection::NpsTooLow { min: b.nps.min })
    } else if !leq_or_disabled_any(nps_of(map), b.nps.max) {
        Some(Rejection::NpsTooHigh { max: b.nps.max })
    } else if !geq_or_disabled_any(njs_of(map), b.njs.min) {
        Some(Rejection::NjsTooLow { min: b.njs.min })
    } else if !leq_or_disabled_any(njs_of(map), b.njs.max) {
        Some(Rejection::NjsTooHigh { max: b.njs.max })
    } else {
        None
    }
}

/// The gates before the streamer's vote: queue state, the user's limits and
/// censoring. `None` when all of them let the map through.
pub open spec fn gate_rule(map: DRMMap, facts: QueueFacts, config: SDRMMConfig) -> Option<
    Rejection,
> {
    let closed = open_rule(facts);
    let queue_cap = queue_cap_rule(facts, config);
    let session_cap = session_cap_rule(facts, config);
    if closed is Some {
        closed
    } else if queue_cap is Some {
        queue_cap
    } else if session_cap is Some {
        session_cap
    } else if censor_rule(map, config) {
        Some(Rejection::Censored)
    } else {
        None
    }
}

/// The admission rules, in their fixed order: the first rule that decides
/// gives the outcome, and a map that no rule turns away is accepted.
pub open spec fn admission(map: DRMMap, facts: QueueFacts, config: SDRMMConfig, modadd: bool) -> AdmissionResult {
    let dup = duplicate_rule(map, facts, config);
    let gate = gate_rule(map, facts, config);
    let rating = rating_rule(facts, config);
    let content = content_rule(map, facts, config);
    if dup is Some {
        AdmissionResult::Rejected(dup.unwrap())
    } else if modadd {
        AdmissionResult::Accepted
    } else if gate is Some {
        AdmissionResult::Rejected(gate.unwrap())
    } else if map.vote_status == VoteStatus::Liked && config.map_vote.allow_liked {
        AdmissionResult::Accepted
    } else if map.vote_status == VoteStatus::Disliked && config.map_vote.deny_disliked {
        AdmissionResult::Rejected(Rejection::Disliked)
    } else if playlist_bypass(map, config) {
        AdmissionResult::Accepted
    } else if map.blacklisted {
        AdmissionResult::Rejected(Rejection::Banned)
    } else if rating is Some {
        AdmissionResult::Rejected(rating.unwrap())
    } else if content is Some {
        AdmissionResult::Rejected(content.unwrap())
    } else {
        AdmissionResult::Accepted
    }
}

fn duplicate_check(map: &DRMMap, facts: &QueueFacts, config: &SDRMMConfig) -> (r: Option<
    Rejection,
>)
    ensures
        r == duplicate_rule(*map, *facts, *config),
{
    if config.queue.repeat {
        return None;
    }
    match &facts.queued_keys {
        None => Some(Rejection::QueueUnknown),
        Some(keys) => {
            let mut i: usize = 0;
            while i < keys.len()
                invariant
                    0 <= i <= keys@.len(),
                    facts.queued_keys == Some(*keys),
                    !config.queue.repeat,
                    forall|k: int| 0 <= k < i ==> keys@[k]@ != map.bsr_key@,
                decreases keys@.len() - i,
            {
                if keys[i] == map.bsr_key {
                    assert(keys@[i as int]@ == map.bsr_key@);
                    return Some(Rejection::AlreadyQueued);
                }
                i = i + 1;
            }
            None
        },
    }
}

fn open_check(facts: &QueueFacts) -> (r: Option<Rejection>)
    ensures
        r == open_rule(*facts),
{
    match facts.queue_open {
        None => Some(Rejection::OpenUnknown),
        Some(true) => None,
        Some(false) => Some(Rejection::QueueClosed),
    }
}

fn queue_cap_check(facts: &QueueFacts, config: &SDRMMConfig) -> (r: Option<Rejection>)
    ensures
        r == queue_cap_rule(*facts, *config),
{
    let max = config.queue.queue_max;
    if max == 0 {
        return None;
    }
    match facts.user_in_queue {
        None => Some(Rejection::QueueCountUnknown),
        Some(n) => if n >= max as u64 {
            Some(Rejection::TooManyInQueue { max })
        } else {
            None
        },
    }
}

fn session_cap_check(facts: &QueueFacts, config: &SDRMMConfig) -> (r: Option<Rejection>)
    ensures
        r == session_cap_rule(*facts, *config),
{
    let max = config.queue.session_max;
    if max == 0 {
        return None;
    }
    match facts.session_requests {
        None => Some(Rejection::SessionCountUnknown),
        Some(n) => if n >= max as i64 {
            Some(Rejection::NoRequestsLeft { max })
        } else {
            None
        },
    }
}

/// Whether any text of the map is flagged for censoring.
fn censor(map: &DRMMap) -> (r: bool)
    ensures
        r == is_censored(*map),
{
    map.censor_artist || map.censor_mapper || map.censor_sub_title || map.censor_title
        || map.metadata_has_spliced_censor
}

/// Whether the title, subtitle, artist or mapper looks like it holds a domain.
fn map_contains_tlds(map: &DRMMap) -> (r: bool)
    ensures
        r == map_has_tld(*map),
{
    has_tld(map.title.as_str()) || has_tld(map.sub_title.as_str()) || has_tld(
        map.artist.as_str(),
    ) || has_tld(map.mapper.as_str())
}

fn playlist_check(map: &DRMMap, config: &SDRMMConfig) -> (r: bool)
    ensures
        r == playlist_bypass(*map, *config),
{
    match &config.allowed_playlists {
        None => false,
        Some(allowed) => match_in_two_vecs(map.playlists.clone(), allowed.clone()),
    }
}

fn rating_check(facts: &QueueFacts, config: &SDRMMConfig) -> (r: Option<Rejection>)
    ensures
        r == rating_rule(*facts, *config),
{
    let min = config.bsr.min_rating;
    if ignore_config(min) {
        return None;
    }
    match facts.live_rating {
        None => Some(Rejection::RatingUnknown),
        Some(actual) => if ignore_or_geq(min, actual) {
            None
        } else {
            Some(Rejection::RatingTooLow { min, actual })
        },
    }
}

/// Per-difficulty values: notes per second, or note jump speed.
fn diff_values(map: &DRMMap, nps: bool) -> (r: Vec<i64>)
    ensures
        r@ == if nps {
            nps_of(*map)
        } else {
            njs_of(*map)
        },
{
    let mut out: Vec<i64> = Vec::new();
    let mut i: usize = 0;
    while i < map.diffs.len()
        invariant
            0 <= i <= map.diffs@.len(),
            out@ == (if nps {
                nps_of(*map)
            } else {
                njs_of(*map)
            }).subrange(0, i as int),
        decreases map.diffs@.len() - i,
    {
        let d = &map.diffs[i];
        if nps {
            out.push(d.notes_per_second);
        } else {
            out.push(d.note_jump_speed);
        }
        i = i + 1;
    }
    assert(out@ =~= (if nps {
        nps_of(*map)
    } else {
        njs_of(*map)
    }));
    out
}

fn content_check(map: &DRMMap, facts: &QueueFacts, config: &SDRMMConfig) -> (r: Option<
    Rejection,
>)
    ensures
        r == content_rule(*map, *facts, *config),
{
    let b = &config.bsr;
    if !b.allow_ai && map.automapped {
        return Some(Rejection::Automapped);
    }
    if (map.upload_time as i128) < (b.date.earliest as i128) * (DAY_SECS as i128) {
        return Some(Rejection::TooOld { earliest: b.date.earliest, uploaded: map.upload_time });
    }
    if b.date.min_age != 0 && (map.upload_time as i128) > (facts.now as i128) - (
    b.date.min_age as i128) * (DAY_SECS as i128) {
        return Some(Rejection::TooNew { min_age: b.date.min_age, uploaded: map.upload_time });
    }
    if !ignore_or_geq(b.length.min, map.duration) {
        return Some(Rejection::TooShort { min: b.length.min, actual: map.duration });
    }
    if !ignore_or_leq(b.length.max, map.duration) {
        return Some(Rejection::TooLong { max: b.length.max, actual: map.duration });
    }
    if !config.queue.replay && map.has_played {
        return Some(Rejection::AlreadyPlayed);
    }
    let nps = diff_values(map, true);
    let njs = diff_values(map, false);
    if !ignore_or_geq_vec(&nps, b.nps.min) {
        return Some(Rejection::NpsTooLow { min: b.nps.min });
    }
    if !ignore_or_leq_vec(&nps, b.nps.max) {
        return Some(Rejection::NpsTooHigh { max: b.nps.max });
    }
    if !ignore_or_geq_vec(&njs, b.njs.min) {
        return Some(Rejection::NjsTooLow { min: b.njs.min });
    }
    if !ignore_or_leq_vec(&njs, b.njs.max) {
        return Some(Rejection::NjsTooHigh { max: b.njs.max });
    }
    None
}

/// Runs the admission rules on a map, in their fixed order.
pub fn evaluate(map: &DRMMap, facts: &QueueFacts, config: &SDRMMConfig, modadd: bool) -> (r:
    AdmissionResult)
    ensures
        r == admission(*map, *facts, *config, modadd),
{
    if let Some(j) = duplicate_check(map, facts, config) {
        return AdmissionResult::Rejected(j);
    }
    if modadd {
        return AdmissionResult::Accepted;
    }
    if let Some(j) = open_check(facts) {
        return AdmissionResult::Rejected(j);
    }
    if let Some(j) = queue_cap_check(facts, config) {
        return AdmissionResult::Rejected(j);
    }
    if let Some(j) = session_cap_check(facts, config) {
        return AdmissionResult::Rejected(j);
    }
    if config.bsr.censors.deny_censored && censor(map) {
        if !map_contains_tlds(map) || config.bsr.censors.deny_urls {
            return AdmissionResult::Rejected(Rejection::Censored);
        }
    }
    match map.vote_status {
        VoteStatus::NoVote => {},
        VoteStatus::Liked => {
            if config.map_vote.allow_liked {
                return AdmissionResult::Accepted;
            }
        },
        VoteStatus::Disliked => {
            if config.map_vote.deny_disliked {
                return AdmissionResult::Rejected(Rejection::Disliked);
            }
        },
    }
    if playlist_check(map, config) {
        return AdmissionResult::Accepted;
    }
    if map.blacklisted {
        return AdmissionResult::Rejected(Rejection::Banned);
    }
    if let Some(j) = rating_check(facts, config) {
        return AdmissionResult::Rejected(j);
    }
    if let Some(j) = content_check(map, facts, config) {
        return AdmissionResult::Rejected(j);
    }
    AdmissionResult::Accepted
}

/// Decides whether a map may join the queue: `Ok` when it may, otherwise the
/// message of the first rule that turned it away. A moderator's request
/// (`modadd` of `Some(true)`) skips every rule but the one on duplicates.
pub fn filter_map(map: &DRMMap, facts: &QueueFacts, config: &SDRMMConfig, modadd: Option<
    bool,
>) -> (r: Result<(), String>)
    ensures
        match admission(*map, *facts, *config, modadd == Some(true)) {
            AdmissionResult::Accepted => r is Ok,
            AdmissionResult::Rejected(j) => r is Err && r->Err_0@ == j.text(),
        },
{
    let m = match modadd {
        Some(m) => m,
        None => false,
    };
    match evaluate(map, facts, config, m) {
        AdmissionResult::Accepted => Ok(()),
        AdmissionResult::Rejected(j) => Err(j.message()),
    }
}

/// A moderator's request is decided by the duplicate rule alone: it is
/// accepted unless the map is already in the queue (or the queue cannot be
/// read) while repeats are off.
pub proof fn lemma_override_accepts_unless_duplicate(
    map: DRMMap,
    facts: QueueFacts,
    config: SDRMMConfig,
)
    ensures
        (config.queue.repeat || (facts.queued_keys is Some && !holds_key(
            facts.queued_keys.unwrap()@,
            map.bsr_key@,
        ))) ==> admission(map, facts, config, true) == AdmissionResult::Accepted,
        (!config.queue.repeat && facts.queued_keys is Some && holds_key(
            facts.queued_keys.unwrap()@,
            map.bsr_key@,
        )) ==> admission(map, facts, config, true) == AdmissionResult::Rejected(
            Rejection::AlreadyQueued,
        ),
{
}

/// A map the streamer disliked is turned away when dislikes are denied,
/// whatever the later rules would say; once the earlier gates let it
/// through, the reason is the dislike.
pub proof fn lemma_disliked_is_rejected(map: DRMMap, facts: QueueFacts, config: SDRMMConfig)
    requires
        map.vote_status == VoteStatus::Disliked,
        config.map_vote.deny_disliked,
    ensures
        admission(map, facts, config, false) is Rejected,
        duplicate_rule(map, facts, config) is None && gate_rule(map, facts, config) is None
            ==> admission(map, facts, config, false) == AdmissionResult::Rejected(
            Rejection::Disliked,
        ),
{
}

/// A map the streamer liked is accepted when likes are allowed and the
/// gates before the vote let it through, whatever its duration, rating or
/// difficulties.
pub proof fn lemma_liked_is_accepted(map: DRMMap, facts: QueueFacts, config: SDRMMConfig)
    requires
        map.vote_status == VoteStatus::Liked,
        config.map_vote.allow_liked,
        duplicate_rule(map, facts, config) is None,
        gate_rule(map, facts, config) is None,
    ensures
        admission(map, facts, config, false) == AdmissionResult::Accepted,
{
}

/// A map in an allowed playlist is accepted once the gates before the vote
/// let it through and the vote does not turn it away, even when it is
/// banned, and whatever its rating, age, duration or difficulties: the
/// playlist bypass comes before the ban rule.
pub proof fn lemma_playlist_bypass_precedes_ban(
    map: DRMMap,
    facts: QueueFacts,
    config: SDRMMConfig,
)
    requires
        playlist_bypass(map, config),
        duplicate_rule(map, facts, config) is None,
        gate_rule(map, facts, config) is None,
        !(map.vote_status == VoteStatus::Disliked && config.map_vote.deny_disliked),
    ensures
        admission(map, facts, config, false) == AdmissionResult::Accepted,
{
}

/// A banned map outside the allowed playlists is turned away once the gates
/// before the vote let it through and the vote does not decide.
pub proof fn lemma_ban_outside_allowed_playlists(
    map: DRMMap,
    facts: QueueFacts,
    config: SDRMMConfig,
)
    requires
        map.blacklisted,
        !playlist_bypass(map, config),
        duplicate_rule(map, facts, config) is None,
        gate_rule(map, facts, config) is None,
        !(map.vote_status == VoteStatus::Liked && config.map_vote.allow_liked),
        !(map.vote_status == VoteStatus::Disliked && config.map_vote.deny_disliked),
    ensures
        admission(map, facts, config, false) == AdmissionResult::Rejected(Rejection::Banned),
{
}

} // verus!
