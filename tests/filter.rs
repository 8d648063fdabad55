use sdrmm::config::SDRMMConfig;
use sdrmm::drm::schema::{DRMMap, DRMMapDiff, MapMods, VoteStatus};
use sdrmm::filter::{evaluate, filter_map, AdmissionResult, CounterRead, QueueFacts, Rejection};

fn diff(nps: i64, njs: i64) -> DRMMapDiff {
    DRMMapDiff {
        difficulty: "Expert".to_string(),
        characteristic: "Standard".to_string(),
        note_jump_speed: njs,
        notes_per_second: nps,
        map_mods: MapMods::default(),
        scoresaber_stars: 0,
        beatleader_stars: 0,
    }
}

fn map() -> DRMMap {
    DRMMap {
        bsr_key: "48dd1".to_string(),
        hash: "abc".to_string(),
        user: Some("viewer".to_string()),
        title: "Song".to_string(),
        censor_title: false,
        sub_title: "".to_string(),
        censor_sub_title: false,
        artist: "Artist".to_string(),
        censor_artist: false,
        mapper: "Mapper".to_string(),
        censor_mapper: false,
        metadata_has_spliced_censor: false,
        duration: 200,
        votes: vec![10, 1],
        rating: 9000,
        upload_time: 1_700_000_000,
        last_updated: 1_700_000_000,
        cover: "".to_string(),
        automapped: false,
        scoresaber_ranked: false,
        beatleader_ranked: false,
        curated: false,
        curator_name: "".to_string(),
        playlists: vec![],
        vote_status: VoteStatus::NoVote,
        chroma: false,
        cinema: false,
        mapping_extensions: false,
        noodle_extensions: false,
        vivify: false,
        from_local_map: false,
        from_local_cache: false,
        from_beatsaver: true,
        has_played: false,
        blacklisted: false,
        diffs: vec![diff(500, 1600), diff(800, 1800)],
    }
}

fn facts() -> QueueFacts {
    QueueFacts {
        queued_keys: Some(vec!["1a2b".to_string()]),
        queue_open: Some(true),
        user_in_queue: Some(0),
        session_requests: Some(0),
        live_rating: Some(9000),
        now: 1_800_000_000,
    }
}

fn reject(result: Result<(), String>) -> String {
    match result {
        Ok(()) => panic!("expected a rejection"),
        Err(e) => e,
    }
}

#[test]
fn session_limit_reached() {
    let mut config = SDRMMConfig::default();
    config.queue.queue_max = 0;
    config.queue.session_max = 3;
    config.bsr.length.min = 60;
    config.bsr.length.max = 600;
    config.queue.replay = false;
    let mut f = facts();
    f.session_requests = Some(3);
    let e = reject(filter_map(&map(), &f, &config, None));
    assert_eq!(e, "You have no more requests this session! (max is 3)");
}

#[test]
fn shorter_than_minimum() {
    let mut config = SDRMMConfig::default();
    config.bsr.length.min = 60;
    let mut m = map();
    m.duration = 30;
    let e = reject(filter_map(&m, &facts(), &config, None));
    assert_eq!(e, "Map is shorter than 60 seconds (is 30 seconds)");
}

#[test]
fn liked_map_skips_duration_window() {
    let mut config = SDRMMConfig::default();
    config.map_vote.allow_liked = true;
    config.bsr.length.min = 60;
    config.bsr.length.max = 600;
    let mut m = map();
    m.vote_status = VoteStatus::Liked;
    m.duration = 9999;
    assert_eq!(filter_map(&m, &facts(), &config, None), Ok(()));
    m.vote_status = VoteStatus::NoVote;
    let e = reject(filter_map(&m, &facts(), &config, None));
    assert_eq!(e, "Map is longer than 600 seconds (is 9999 seconds)");
}

#[test]
fn allowed_playlist_accepts_banned_map() {
    let mut config = SDRMMConfig::default();
    config.allowed_playlists = Some(vec!["Marathon".to_string()]);
    let mut m = map();
    m.playlists = vec!["Marathon".to_string()];
    m.blacklisted = true;
    assert_eq!(filter_map(&m, &facts(), &config, None), Ok(()));
    m.playlists = vec!["Tech".to_string()];
    let e = reject(filter_map(&m, &facts(), &config, None));
    assert_eq!(e, "Map is banned from being requested!");
}

#[test]
fn upload_at_start_of_earliest_day_is_not_too_old() {
    let mut config = SDRMMConfig::default();
    config.bsr.date.earliest = 19723;
    let mut m = map();
    m.upload_time = 19723 * 86400;
    assert_eq!(filter_map(&m, &facts(), &config, None), Ok(()));
    m.upload_time = 19723 * 86400 - 1;
    let e = reject(filter_map(&m, &facts(), &config, None));
    assert_eq!(e, "Map is older than Jan  1, 2024 (uploaded Dec 31, 2023)");
}

#[test]
fn allowed_playlist_skips_later_rules() {
    let mut config = SDRMMConfig::default();
    config.allowed_playlists = Some(vec!["Marathon".to_string()]);
    config.bsr.length.min = 60;
    config.bsr.min_rating = 9500;
    let mut m = map();
    m.playlists = vec!["Marathon".to_string()];
    m.duration = 30;
    assert_eq!(filter_map(&m, &facts(), &config, None), Ok(()));
}

#[test]
fn everything_disabled_accepts() {
    let config = SDRMMConfig::default();
    assert_eq!(evaluate(&map(), &facts(), &config, false), AdmissionResult::Accepted);
    assert_eq!(filter_map(&map(), &facts(), &config, None), Ok(()));
}

#[test]
fn duplicate_blocks_even_moderator() {
    let config = SDRMMConfig::default();
    let mut f = facts();
    f.queued_keys = Some(vec!["48dd1".to_string()]);
    let e = reject(filter_map(&map(), &f, &config, Some(true)));
    assert_eq!(e, "Map is already in queue!");
    let mut config2 = SDRMMConfig::default();
    config2.queue.repeat = true;
    assert_eq!(filter_map(&map(), &f, &config2, None), Ok(()));
}

#[test]
fn moderator_override_skips_other_rules() {
    let config = SDRMMConfig::default();
    let mut f = facts();
    f.queue_open = Some(false);
    let mut m = map();
    m.blacklisted = true;
    assert_eq!(filter_map(&m, &f, &config, Some(true)), Ok(()));
    assert_eq!(reject(filter_map(&m, &f, &config, Some(false))), "Queue is closed!");
}

#[test]
fn disliked_map_is_denied() {
    let mut config = SDRMMConfig::default();
    config.map_vote.deny_disliked = true;
    let mut m = map();
    m.vote_status = VoteStatus::Disliked;
    let e = reject(filter_map(&m, &facts(), &config, None));
    assert_eq!(e, "The streamer probably doesn't like the map.");
    config.map_vote.deny_disliked = false;
    assert_eq!(filter_map(&m, &facts(), &config, None), Ok(()));
}

#[test]
fn failed_reads_turn_maps_away() {
    let config = SDRMMConfig::default();
    let mut f = facts();
    f.queued_keys = None;
    assert_eq!(evaluate(&map(), &f, &config, true), AdmissionResult::Rejected(Rejection::QueueUnknown));
    let mut f = facts();
    f.queue_open = None;
    assert_eq!(evaluate(&map(), &f, &config, false), AdmissionResult::Rejected(Rejection::OpenUnknown));
    let mut config = SDRMMConfig::default();
    config.queue.queue_max = 2;
    config.queue.session_max = 2;
    config.bsr.min_rating = 5000;
    let mut f = facts();
    f.user_in_queue = None;
    assert_eq!(evaluate(&map(), &f, &config, false), AdmissionResult::Rejected(Rejection::QueueCountUnknown));
    let mut f = facts();
    f.session_requests = None;
    assert_eq!(evaluate(&map(), &f, &config, false), AdmissionResult::Rejected(Rejection::SessionCountUnknown));
    let mut f = facts();
    f.live_rating = None;
    assert_eq!(evaluate(&map(), &f, &config, false), AdmissionResult::Rejected(Rejection::RatingUnknown));
}

#[test]
fn queue_cap_reached() {
    let mut config = SDRMMConfig::default();
    config.queue.queue_max = 2;
    let mut f = facts();
    f.user_in_queue = Some(1);
    assert_eq!(filter_map(&map(), &f, &config, None), Ok(()));
    f.user_in_queue = Some(2);
    let e = reject(filter_map(&map(), &f, &config, None));
    assert_eq!(e, "You have too many songs in queue! (max is 2)");
}

#[test]
fn censored_map_and_domain_exception() {
    let mut config = SDRMMConfig::default();
    config.bsr.censors.deny_censored = true;
    let mut m = map();
    m.censor_title = true;
    let e = reject(filter_map(&m, &facts(), &config, None));
    assert_eq!(e, "Map has terms that aren't allowed.");
    m.title = "Visit example.com".to_string();
    assert_eq!(filter_map(&m, &facts(), &config, None), Ok(()));
    m.title = "examplecom".to_string();
    assert!(filter_map(&m, &facts(), &config, None).is_err());
    m.title = "Song".to_string();
    m.mapper = "someone.org".to_string();
    assert_eq!(filter_map(&m, &facts(), &config, None), Ok(()));
    config.bsr.censors.deny_urls = true;
    assert!(filter_map(&m, &facts(), &config, None).is_err());
}

#[test]
fn rating_below_minimum() {
    let mut config = SDRMMConfig::default();
    config.bsr.min_rating = 7550;
    let mut f = facts();
    f.live_rating = Some(6123);
    let e = reject(filter_map(&map(), &f, &config, None));
    assert_eq!(e, "Map rating is less than 75.50% (is 61.23%)");
    f.live_rating = Some(7550);
    assert_eq!(filter_map(&map(), &f, &config, None), Ok(()));
}

#[test]
fn automapped_map_denied() {
    let config = SDRMMConfig::default();
    let mut m = map();
    m.automapped = true;
    assert_eq!(reject(filter_map(&m, &facts(), &config, None)), "Map is automapped!");
}

#[test]
fn older_than_earliest_date() {
    let mut config = SDRMMConfig::default();
    config.bsr.date.earliest = 19723;
    let e = reject(filter_map(&map(), &facts(), &config, None));
    assert_eq!(e, "Map is older than Jan  1, 2024 (uploaded Nov 14, 2023)");
}

#[test]
fn younger_than_minimum_age() {
    let mut config = SDRMMConfig::default();
    config.bsr.date.min_age = 30;
    let mut f = facts();
    f.now = 1_700_000_000 + 10 * 86400;
    let e = reject(filter_map(&map(), &f, &config, None));
    assert_eq!(e, "Map is less than 30 days old (uploaded Nov 14, 2023)");
    f.now = 1_700_000_000 + 31 * 86400;
    assert_eq!(filter_map(&map(), &f, &config, None), Ok(()));
}

#[test]
fn replay_denied() {
    let config = SDRMMConfig::default();
    let mut m = map();
    m.has_played = true;
    let e = reject(filter_map(&m, &facts(), &config, None));
    assert_eq!(e, "Map has already been played this session!");
}

#[test]
fn nps_and_njs_windows() {
    let mut config = SDRMMConfig::default();
    config.bsr.nps.min = 850;
    let e = reject(filter_map(&map(), &facts(), &config, None));
    assert_eq!(e, "Map does not have a difficulty with NPS higher than 8.5");
    let mut config = SDRMMConfig::default();
    config.bsr.nps.max = 400;
    let e = reject(filter_map(&map(), &facts(), &config, None));
    assert_eq!(e, "Map does not have a difficulty with NPS lower than 4");
    let mut config = SDRMMConfig::default();
    config.bsr.njs.min = 1825;
    let e = reject(filter_map(&map(), &facts(), &config, None));
    assert_eq!(e, "Map does not have a difficulty with NJS higher than 18.25");
    let mut config = SDRMMConfig::default();
    config.bsr.njs.max = 1550;
    let e = reject(filter_map(&map(), &facts(), &config, None));
    assert_eq!(e, "Map does not have a difficulty with NJS lower than 15.5");
    let mut config = SDRMMConfig::default();
    config.bsr.nps.min = 700;
    config.bsr.nps.max = 600;
    assert_eq!(filter_map(&map(), &facts(), &config, None), Ok(()));
}

#[test]
fn map_without_difficulties_fails_enabled_window() {
    let mut config = SDRMMConfig::default();
    config.bsr.nps.min = 100;
    let mut m = map();
    m.diffs = vec![];
    assert_eq!(
        evaluate(&m, &facts(), &config, false),
        AdmissionResult::Rejected(Rejection::NpsTooLow { min: 100 })
    );
    assert_eq!(evaluate(&m, &facts(), &SDRMMConfig::default(), false), AdmissionResult::Accepted);
}

#[test]
fn first_failing_rule_wins() {
    let mut config = SDRMMConfig::default();
    config.bsr.length.min = 60;
    config.queue.replay = false;
    let mut m = map();
    m.duration = 30;
    m.has_played = true;
    m.automapped = true;
    assert_eq!(evaluate(&m, &facts(), &config, false), AdmissionResult::Rejected(Rejection::Automapped));
}

#[test]
fn facts_from_reads() {
    let mut other = map();
    other.bsr_key = "ff00".to_string();
    let f = QueueFacts::from_reads(
        Some(vec![map(), other]),
        Some(true),
        Some(vec![]),
        CounterRead::NotFound,
        Some(map()),
        12,
    );
    assert_eq!(f.queued_keys, Some(vec!["48dd1".to_string(), "ff00".to_string()]));
    assert_eq!(f.queue_open, Some(true));
    assert_eq!(f.user_in_queue, Some(0));
    assert_eq!(f.session_requests, Some(0));
    assert_eq!(f.live_rating, Some(9000));
    assert_eq!(f.now, 12);
    let g = QueueFacts::from_reads(None, None, None, CounterRead::Failed, None, 0);
    assert_eq!(g.queued_keys, None);
    assert_eq!(g.queue_open, None);
    assert_eq!(g.user_in_queue, None);
    assert_eq!(g.session_requests, None);
    assert_eq!(g.live_rating, None);
    let h = QueueFacts::from_reads(None, None, None, CounterRead::Found(4), None, 0);
    assert_eq!(h.session_requests, Some(4));
}

#[test]
fn rejection_message_of_a_far_date() {
    let r = Rejection::TooOld { earliest: 100_000_000, uploaded: -9_000_000_000_000 };
    assert_eq!(r.message(), "Map is older than 100000000 (uploaded -9000000000000)");
}
