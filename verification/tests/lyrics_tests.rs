use lyrics_plus::lyrics::{
    fresh_online_results, lyrics_monitor, after_search, after_storage_load, candidate_capability_rank, lyric_content_key,
    plan_lyrics_sync, playback_track_key, player_key, settled_status, CandidateCapabilities,
    LyricsRuntimeStatus, LyricsSearchRequestKey, LyricsSyncPlan, LyricsWorkerStep, SearchFinish,
    SearchReply, SearchSessionState, SearchStart, StoredLyrics, LYRICS_SEARCH_INVALIDATED,
};
use lyrics_plus::overlay::SecondaryDisplayMode;
use lyrics_plus::player::{PlaybackSnapshot, PlayerKind};

fn playing(player: Option<PlayerKind>, title: &str, artist: &str, track_id: Option<&str>) -> PlaybackSnapshot {
    let mut snapshot = PlaybackSnapshot::default();
    snapshot.player = player;
    snapshot.title = Some(title.into());
    snapshot.artist = Some(artist.into());
    snapshot.track_id = track_id.map(str::to_string);
    snapshot.duration_ms = Some(123000);
    snapshot
}

#[test]
fn track_keys() {
    assert_eq!(player_key(PlayerKind::AppleMusic), "apple_music");
    assert_eq!(
        playback_track_key(&playing(Some(PlayerKind::Spotify), "Song", "Artist", Some(" id-1 "))).as_deref(),
        Some("spotify:id-1")
    );
    assert_eq!(
        playback_track_key(&playing(Some(PlayerKind::System), "  Test   Song ", "Some ARTIST", Some(" "))).as_deref(),
        Some("system:fallback:test song|some artist|123000")
    );
    assert_eq!(playback_track_key(&playing(None, "a", "b", None)), None);
    assert_eq!(playback_track_key(&playing(Some(PlayerKind::System), " ", "b", None)), None);
}

#[test]
fn lyric_keys_ignore_white_space() {
    assert_eq!(lyric_content_key("[00:01] a b\n c"), "[00:01]abc");
    assert_eq!(lyric_content_key(" a\tb "), lyric_content_key("ab"));
}

fn key(title: &str) -> LyricsSearchRequestKey {
    LyricsSearchRequestKey::new(title, "Artist", Some("  "), Some(5))
}

#[test]
fn request_keys_are_trimmed() {
    let k = LyricsSearchRequestKey::new(" T ", " A ", Some(" Al "), None);
    assert_eq!((k.title.as_str(), k.artist.as_str(), k.album.as_deref()), ("T", "A", Some("Al")));
    assert!(key("x").album.is_none());
}

#[test]
fn search_sessions_share_and_invalidate_searches() {
    let mut session = SearchSessionState::new();
    assert!(matches!(session.begin(false, "t", "x", "y", key("x"), false), SearchStart::Refused(m) if m == "当前歌曲已发生变化"));
    session.reset(Some("t".into()));
    assert!(matches!(session.begin(true, "t", "x", "y", key("x"), false), SearchStart::Refused(m) if m == "实验室客户端不能搜索歌词，请在服务端操作"));
    assert!(matches!(session.begin(false, "t", " ", "y", key("x"), false), SearchStart::Refused(m) if m == "搜索歌词需要歌曲名和歌手"));
    let (activation, request_id) = match session.begin(false, "t", "x", "y", key("x"), false) {
        SearchStart::Launch { activation, request_id } => (activation, request_id),
        other => panic!("unexpected {:?}", other),
    };
    assert_eq!(request_id, 1);
    assert!(matches!(session.begin(false, "t", "x", "y", key("x"), false), SearchStart::Join { .. }));
    assert!(matches!(session.finish(false, activation, request_id), SearchFinish::Stored));
    assert!(matches!(session.begin(false, "t", "x", "y", key("x"), false), SearchStart::ReuseCompleted));
    assert!(matches!(session.begin(false, "t", "x", "y", key("x"), true), SearchStart::Launch { request_id: 2, .. }));
    assert!(matches!(session.begin(false, "t", "x", "y", key("x"), true), SearchStart::Join { request_id: 2, .. }));
    assert!(matches!(session.begin(false, "t", "x", "y", key("z"), true), SearchStart::Launch { request_id: 3, .. }));
    session.reset(Some("t".into()));
    assert!(matches!(session.finish(false, activation, 3), SearchFinish::Invalidated));
    assert!(matches!(session.finish(true, 0, 0), SearchFinish::Refused(_)));
    assert_eq!(session.track_key.as_deref(), Some("t"));
}

#[test]
fn sync_plans() {
    let k = |v: &str| Some(v.to_string());
    let d = plan_lyrics_sync(false, false, &k("a"), &k("a"), true, true);
    assert!(matches!(d.plan, LyricsSyncPlan::RefreshSurfaces) && !d.record_alias);
    let d = plan_lyrics_sync(false, false, &k("a"), &k("b"), true, true);
    assert!(matches!(d.plan, LyricsSyncPlan::Load(ref t) if t == "b") && d.record_alias);
    let d = plan_lyrics_sync(false, true, &k("a"), &k("a"), true, false);
    assert!(matches!(d.plan, LyricsSyncPlan::Load(_)) && !d.record_alias);
    let d = plan_lyrics_sync(false, false, &k("a"), &None, true, true);
    assert!(matches!(d.plan, LyricsSyncPlan::Clear));
    let d = plan_lyrics_sync(true, true, &None, &k("a"), true, true);
    assert!(matches!(d.plan, LyricsSyncPlan::RefreshSurfaces));
}

#[test]
fn worker_steps() {
    assert!(matches!(after_storage_load(StoredLyrics::Found, true, true), LyricsWorkerStep::Publish { status: LyricsRuntimeStatus::Ready, error: None }));
    assert!(matches!(after_storage_load(StoredLyrics::Found, true, false), LyricsWorkerStep::Stop));
    assert!(matches!(after_storage_load(StoredLyrics::Failed("e".into()), true, true), LyricsWorkerStep::Publish { status: LyricsRuntimeStatus::Error, error: Some(_) }));
    assert!(matches!(after_storage_load(StoredLyrics::Missing, true, false), LyricsWorkerStep::Search));
    assert!(matches!(after_storage_load(StoredLyrics::Missing, false, true), LyricsWorkerStep::Publish { status: LyricsRuntimeStatus::NotFound, error: None }));
    assert!(matches!(after_search(SearchReply::Answered { error: None }, true), LyricsWorkerStep::Apply));
    assert!(matches!(after_search(SearchReply::Answered { error: Some("x".into()) }, true), LyricsWorkerStep::Publish { status: LyricsRuntimeStatus::Error, .. }));
    assert!(matches!(after_search(SearchReply::Failed(LYRICS_SEARCH_INVALIDATED.into()), true), LyricsWorkerStep::Publish { status: LyricsRuntimeStatus::NotFound, error: None }));
    assert!(matches!(after_search(SearchReply::Failed("x".into()), false), LyricsWorkerStep::Stop));
    assert_eq!(settled_status(true), LyricsRuntimeStatus::Ready);
    assert_eq!(settled_status(false), LyricsRuntimeStatus::NotFound);
}

#[test]
fn capability_ranks() {
    let c = |w, t, r| CandidateCapabilities { has_word_timing: w, has_translation: t, has_romanization: r };
    assert_eq!(candidate_capability_rank(c(true, true, true), SecondaryDisplayMode::TranslationRomanization), (0, 0));
    assert_eq!(candidate_capability_rank(c(false, true, false), SecondaryDisplayMode::TranslationRomanization), (1, 1));
    assert_eq!(candidate_capability_rank(c(true, false, true), SecondaryDisplayMode::TranslationRomanization), (0, 2));
    assert_eq!(candidate_capability_rank(c(true, false, false), SecondaryDisplayMode::TranslationRomanization), (0, 3));
    assert_eq!(candidate_capability_rank(c(true, false, false), SecondaryDisplayMode::Translation), (0, 1));
    assert_eq!(candidate_capability_rank(c(true, false, true), SecondaryDisplayMode::Romanization), (0, 0));
    assert_eq!(candidate_capability_rank(c(false, false, false), SecondaryDisplayMode::Next), (1, 0));
}

#[test]
fn online_results_drop_known_and_repeated_lyrics() {
    let local = vec!["aa".to_string(), "bb".to_string()];
    let online = vec!["bb".to_string(), "cc".to_string(), "dd".to_string(), "cc".to_string()];
    assert_eq!(fresh_online_results(&local, &online), vec![false, true, true, false]);
    assert_eq!(fresh_online_results(&Vec::new(), &Vec::new()), Vec::<bool>::new());
}

#[test]
fn lyrics_monitor_names_display() {
    let primary = Some("Built-in@0,-25:1512x982".to_string());
    let m = lyrics_monitor(Some("Built-in"), (0, -25), (1512, 982), &primary);
    assert_eq!(m.id, "Built-in@0,-25:1512x982");
    assert_eq!(m.name, "Built-in");
    assert_eq!((m.width, m.height), (1512, 982));
    assert!(m.is_primary);
    let other = lyrics_monitor(None, (1512, 0), (1920, 1080), &primary);
    assert_eq!(other.id, "display@1512,0:1920x1080");
    assert_eq!(other.name, "");
    assert!(!other.is_primary);
    assert!(!lyrics_monitor(None, (0, 0), (1, 1), &None).is_primary);
}
