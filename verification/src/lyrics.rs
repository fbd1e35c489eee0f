use vstd::prelude::*;

use crate::overlay::SecondaryDisplayMode;
use crate::player::{opt_view, PlaybackSnapshot, PlayerKind};
use crate::text::{
    char_is_whitespace, chars_of, collapse_whitespace, collapse_whitespace_spec, decimal_spec,
    is_white_space, push_chars, push_decimal, push_str, str_eq, string_from_chars, to_lowercase,
    trim_spec, trim_str, unicode_lowercase,
};

verus! {

/// A display the lyrics windows can be placed on.
#[derive(Debug, Clone)]
pub struct LyricsMonitor {
    pub id: String,
    pub name: String,
    pub width: u32,
    pub height: u32,
    pub is_primary: bool,
}

/// Lyrics that the user saves for a track.
#[derive(Debug, Clone)]
pub struct SaveLyricsInput {
    pub track_key: String,
    pub title: String,
    pub artist: String,
    pub album: Option<String>,
    pub duration_ms: Option<u64>,
    pub source: String,
    pub lyrics: String,
    pub provider_id: Option<String>,
    pub provider_item_id: Option<String>,
    pub manual_selected: bool,
}

/// Where the lyrics of the current track stand.
#[derive(Debug, Clone, Copy, PartialEq, Eq, Structural)]
pub enum LyricsRuntimeStatus {
    Idle,
    Loading,
    Ready,
    NotFound,
    Error,
}

/// The name of a player inside a track key.
pub open spec fn player_key_spec(player: PlayerKind) -> Seq<char> {
    match player {
        PlayerKind::AppleMusic => "apple_music"@,
        PlayerKind::Spotify => "spotify"@,
        PlayerKind::System => "system"@,
    }
}

/// The name of a player inside a track key.
pub fn player_key(player: PlayerKind) -> (r: &'static str)
    ensures
        r@ == player_key_spec(player),
{
    match player {
        PlayerKind::AppleMusic => "apple_music",
        PlayerKind::Spotify => "spotify",
        PlayerKind::System => "system",
    }
}

/// The key under which the lyrics of the playing track are stored: the
/// player's name and the track identifier, or, without an identifier, the
/// player's name and `fallback:` followed by title, artist and duration,
/// lowercased and with white space collapsed. A snapshot without player, or
/// with a blank title or artist, has no key.
pub open spec fn track_key_spec(snapshot: PlaybackSnapshot) -> Option<Seq<char>> {
    match (snapshot.player, snapshot.title, snapshot.artist) {
        (Some(player), Some(title), Some(artist)) => {
            let t = trim_spec(title@);
            let a = trim_spec(artist@);
            if t.len() == 0 || a.len() == 0 {
                None
            } else {
                match snapshot.track_id {
                    Some(id) if trim_spec(id@).len() > 0 => Some(
                        player_key_spec(player) + ":"@ + trim_spec(id@),
                    ),
                    _ => {
                        let d: u64 = match snapshot.duration_ms {
                            Some(d) => d,
                            None => 0,
                        };
                        Some(
                            player_key_spec(player) + ":fallback:"@ + collapse_whitespace_spec(
                                unicode_lowercase(t + "|"@ + a + "|"@ + decimal_spec(d as nat)),
                            ),
                        )
                    },
                }
            }
        },
        _ => None,
    }
}

/// Computes the storage key of the playing track.
pub fn playback_track_key(snapshot: &PlaybackSnapshot) -> (r: Option<String>)
    ensures
        opt_view(r) == track_key_spec(*snapshot),
{
    let player = match snapshot.player {
        Some(p) => p,
        None => {
            return None;
        },
    };
    let title = match &snapshot.title {
        Some(t) => trim_str(t.as_str()),
        None => {
            return None;
        },
    };
    let artist = match &snapshot.artist {
        Some(a) => trim_str(a.as_str()),
        None => {
            return None;
        },
    };
    if title.len() == 0 || artist.len() == 0 {
        return None;
    }
    let name = player_key(player);
    if let Some(id) = &snapshot.track_id {
        let id = trim_str(id.as_str());
        if id.len() > 0 {
            let mut out: Vec<char> = Vec::new();
            push_str(&mut out, name);
            push_str(&mut out, ":");
            push_chars(&mut out, &id);
            proof {
                reveal_strlit(":");
            }
            return Some(string_from_chars(&out));
        }
    }
    let mut joined: Vec<char> = Vec::new();
    push_chars(&mut joined, &title);
    push_str(&mut joined, "|");
    push_chars(&mut joined, &artist);
    push_str(&mut joined, "|");
    let d = match snapshot.duration_ms {
        Some(d) => d,
        None => 0,
    };
    push_decimal(d, &mut joined);
    let lowered = to_lowercase(&joined);
    let collapsed = collapse_whitespace(&lowered);
    let mut out: Vec<char> = Vec::new();
    push_str(&mut out, name);
    push_str(&mut out, ":fallback:");
    push_chars(&mut out, &collapsed);
    Some(string_from_chars(&out))
}

/// The characters of `s` that are not white space, in order.
pub open spec fn without_white_space(s: Seq<char>) -> Seq<char>
    decreases s.len(),
{
    if s.len() == 0 {
        seq![]
    } else if is_white_space(s.last()) {
        without_white_space(s.drop_last())
    } else {
        without_white_space(s.drop_last()).push(s.last())
    }
}

/// Lyrics with all white space removed: two texts that differ only in spacing
/// and line breaks share this key.
pub fn lyric_content_key(lyrics: &str) -> (r: String)
    ensures
        r@ == without_white_space(lyrics@),
{
    let chars = chars_of(lyrics);
    let mut out: Vec<char> = Vec::new();
    let mut i: usize = 0;
    while i < chars.len()
        invariant
            i <= chars@.len(),
            out@ == without_white_space(chars@.take(i as int)),
        decreases chars@.len() - i,
    {
        let c = chars[i];
        assert(chars@.take(i + 1).drop_last() == chars@.take(i as int));
        if !char_is_whitespace(c) {
            out.push(c);
        }
        i = i + 1;
    }
    assert(chars@.take(chars@.len() as int) == chars@);
    string_from_chars(&out)
}

/// What identifies one lyrics search: trimmed title and artist, the trimmed
/// album when it is not blank, and the duration.
#[derive(Debug, Clone)]
pub struct LyricsSearchRequestKey {
    pub title: String,
    pub artist: String,
    pub album: Option<String>,
    pub duration_ms: Option<u64>,
}

impl LyricsSearchRequestKey {
    pub open spec fn key_view(self) -> (Seq<char>, Seq<char>, Option<Seq<char>>, Option<u64>) {
        (self.title@, self.artist@, opt_view(self.album), self.duration_ms)
    }

    /// Builds the key of a search for a track.
    pub fn new(title: &str, artist: &str, album: Option<&str>, duration_ms: Option<u64>) -> (r: Self)
        ensures
            r.title@ == trim_spec(title@),
            r.artist@ == trim_spec(artist@),
            opt_view(r.album) == match album {
                Some(a) => if trim_spec(a@).len() > 0 {
                    Some(trim_spec(a@))
                } else {
                    None
                },
                None => None,
            },
            r.duration_ms == duration_ms,
    {
        let t = trim_str(title);
        let a = trim_str(artist);
        let album = match album {
            Some(x) => {
                let x = trim_str(x);
                if x.len() > 0 {
                    Some(string_from_chars(&x))
                } else {
                    None
                }
            },
            None => None,
        };
        LyricsSearchRequestKey {
            title: string_from_chars(&t),
            artist: string_from_chars(&a),
            album,
            duration_ms,
        }
    }
}

fn opt_str_eq(a: &Option<String>, b: &Option<String>) -> (r: bool)
    ensures
        r == (opt_view(*a) == opt_view(*b)),
{
    match (a, b) {
        (Some(x), Some(y)) => str_eq(x.as_str(), y.as_str()),
        (None, None) => true,
        _ => false,
    }
}

fn request_key_eq(a: &LyricsSearchRequestKey, b: &LyricsSearchRequestKey) -> (r: bool)
    ensures
        r == (a.key_view() == b.key_view()),
{
    str_eq(a.title.as_str(), b.title.as_str()) && str_eq(a.artist.as_str(), b.artist.as_str())
        && opt_str_eq(&a.album, &b.album) && a.duration_ms == b.duration_ms
}

/// The next value of a counter that wraps around at `u64::MAX`.
pub open spec fn next_counter(n: u64) -> u64 {
    if n == u64::MAX {
        0
    } else {
        (n + 1) as u64
    }
}

fn bump(n: u64) -> (r: u64)
    ensures
        r == next_counter(n),
{
    if n == u64::MAX {
        0
    } else {
        n + 1
    }
}

/// The bookkeeping of lyrics searches for the current track. The search
/// result itself and the running search are held by the caller; this state
/// says whether they exist and to which request they belong.
#[derive(Debug, Clone)]
pub struct SearchSessionState {
    pub activation: u64,
    pub track_key: Option<String>,
    pub request_id: u64,
    pub request_key: Option<LyricsSearchRequestKey>,
    pub has_completed: bool,
    pub in_flight: bool,
}

/// How a search request is served.
#[derive(Debug, Clone)]
pub enum SearchStart {
    /// The request is refused with this message.
    Refused(String),
    /// The stored result of the last search is handed out again.
    ReuseCompleted,
    /// The running search is awaited.
    Join { activation: u64, request_id: u64 },
    /// A new search starts.
    Launch { activation: u64, request_id: u64 },
}

/// What becomes of a finished search.
#[derive(Debug, Clone)]
pub enum SearchFinish {
    /// The application became a laboratory client meanwhile: the session is
    /// reset and the search is refused with this message.
    Refused(String),
    /// The session moved on; the result is dropped.
    Invalidated,
    /// The result is stored as the session's completed search and returned.
    Stored,
}

pub open spec fn client_search_message() -> Seq<char> {
    "实验室客户端不能搜索歌词，请在服务端操作"@
}

pub open spec fn missing_fields_message() -> Seq<char> {
    "搜索歌词需要歌曲名和歌手"@
}

pub open spec fn track_changed_message() -> Seq<char> {
    "当前歌曲已发生变化"@
}

/// The message of a search whose session moved on.
pub const LYRICS_SEARCH_INVALIDATED: &'static str = "当前歌词搜索已失效";

impl SearchSessionState {
    pub open spec fn key_view_opt(self) -> Option<(Seq<char>, Seq<char>, Option<Seq<char>>, Option<u64>)> {
        match self.request_key {
            Some(k) => Some(k.key_view()),
            None => None,
        }
    }

    /// A session with no track and no search.
    pub fn new() -> (r: Self)
        ensures
            r.activation == 0,
            r.track_key is None,
            r.request_id == 0,
            r.request_key is None,
            !r.has_completed,
            !r.in_flight,
    {
        SearchSessionState {
            activation: 0,
            track_key: None,
            request_id: 0,
            request_key: None,
            has_completed: false,
            in_flight: false,
        }
    }

    /// Starts a new session for `track_key`: every search begun before is
    /// abandoned.
    pub fn reset(&mut self, track_key: Option<String>)
        ensures
            final(self).activation == next_counter(old(self).activation),
            final(self).track_key == track_key,
            final(self).request_id == 0,
            final(self).request_key is None,
            !final(self).has_completed,
            !final(self).in_flight,
    {
        self.activation = bump(self.activation);
        self.track_key = track_key;
        self.request_id = 0;
        self.request_key = None;
        self.has_completed = false;
        self.in_flight = false;
    }

    /// Decides how a search for `track_key` with the given request key is
    /// served. `force` asks for a fresh search unless the same request is
    /// already running.
    pub fn begin(
        &mut self,
        is_client: bool,
        track_key: &str,
        title: &str,
        artist: &str,
        key: LyricsSearchRequestKey,
        force: bool,
    ) -> (r: SearchStart)
        ensures
            is_client ==> (r matches SearchStart::Refused(m) && m@ == client_search_message())
                && *final(self) == *old(self),
            !is_client && (trim_spec(title@).len() == 0 || trim_spec(artist@).len() == 0) ==> (r matches SearchStart::Refused(m)
                && m@ == missing_fields_message()) && *final(self) == *old(self),
            !is_client && trim_spec(title@).len() > 0 && trim_spec(artist@).len() > 0 && opt_view(
                old(self).track_key,
            ) != Some(track_key@) ==> (r matches SearchStart::Refused(m) && m@
                == track_changed_message()) && *final(self) == *old(self),
            !is_client && trim_spec(title@).len() > 0 && trim_spec(artist@).len() > 0 && opt_view(
                old(self).track_key,
            ) == Some(track_key@) ==> {
                let same = old(self).key_view_opt() == Some(key.key_view());
                let joins = old(self).in_flight && (!force || same);
                let reuses = !force && old(self).has_completed;
                &&& final(self).activation == old(self).activation
                &&& final(self).track_key == old(self).track_key
                &&& reuses ==> r is ReuseCompleted && *final(self) == *old(self)
                &&& !reuses && joins ==> r == (SearchStart::Join {
                    activation: old(self).activation,
                    request_id: old(self).request_id,
                }) && *final(self) == *old(self)
                &&& !reuses && !joins ==> {
                    &&& r == (SearchStart::Launch {
                        activation: old(self).activation,
                        request_id: next_counter(old(self).request_id),
                    })
                    &&& final(self).request_id == next_counter(old(self).request_id)
                    &&& final(self).in_flight
                    &&& final(self).key_view_opt() == Some(key.key_view())
                    &&& final(self).has_completed == (!force && old(self).has_completed)
                }
            },
    {
        if is_client {
            proof {
                reveal_strlit("实验室客户端不能搜索歌词，请在服务端操作");
            }
            return SearchStart::Refused(string_from_chars(&chars_of("实验室客户端不能搜索歌词，请在服务端操作")));
        }
        let t = trim_str(title);
        let a = trim_str(artist);
        if t.len() == 0 || a.len() == 0 {
            return SearchStart::Refused(string_from_chars(&chars_of("搜索歌词需要歌曲名和歌手")));
        }
        let same_track = match &self.track_key {
            Some(k) => str_eq(k.as_str(), track_key),
            None => false,
        };
        if !same_track {
            return SearchStart::Refused(string_from_chars(&chars_of("当前歌曲已发生变化")));
        }
        let same = match &self.request_key {
            Some(k) => request_key_eq(k, &key),
            None => false,
        };
        if !force {
            if self.has_completed {
                return SearchStart::ReuseCompleted;
            }
            if self.in_flight {
                return SearchStart::Join { activation: self.activation, request_id: self.request_id };
            }
            self.request_id = bump(self.request_id);
            self.request_key = Some(key);
            self.in_flight = true;
            SearchStart::Launch { activation: self.activation, request_id: self.request_id }
        } else if same {
            if self.in_flight {
                return SearchStart::Join { activation: self.activation, request_id: self.request_id };
            }
            self.request_id = bump(self.request_id);
            self.has_completed = false;
            self.in_flight = true;
            SearchStart::Launch { activation: self.activation, request_id: self.request_id }
        } else {
            self.request_id = bump(self.request_id);
            self.request_key = Some(key);
            self.has_completed = false;
            self.in_flight = true;
            SearchStart::Launch { activation: self.activation, request_id: self.request_id }
        }
    }

    /// Decides what becomes of a search started as (`activation`,
    /// `request_id`) once it has finished.
    pub fn finish(&mut self, is_client: bool, activation: u64, request_id: u64) -> (r: SearchFinish)
        ensures
            is_client ==> (r matches SearchFinish::Refused(m) && m@ == client_search_message())
                && final(self).activation == next_counter(old(self).activation)
                && final(self).track_key == old(self).track_key && final(self).request_id == 0
                && final(self).request_key is None && !final(self).has_completed
                && !final(self).in_flight,
            !is_client && (old(self).activation != activation || old(self).request_id
                != request_id) ==> r is Invalidated && *final(self) == *old(self),
            !is_client && old(self).activation == activation && old(self).request_id == request_id
                ==> r is Stored && *final(self) == (SearchSessionState {
                has_completed: true,
                in_flight: false,
                ..*old(self)
            }),
    {
        if is_client {
            let track_key = crate::player::clone_opt_string(&self.track_key);
            self.reset(track_key);
            return SearchFinish::Refused(string_from_chars(&chars_of("实验室客户端不能搜索歌词，请在服务端操作")));
        }
        if self.activation != activation || self.request_id != request_id {
            return SearchFinish::Invalidated;
        }
        self.has_completed = true;
        self.in_flight = false;
        SearchFinish::Stored
    }
}

/// A reset gives the session an activation that differs from the one it had,
/// so `finish` answers `Invalidated` to every search begun before the reset.
pub proof fn reset_invalidates_earlier_searches(activation: u64)
    ensures
        next_counter(activation) != activation,
{
}

/// What happens when the playing track may have changed.
#[derive(Debug, Clone)]
pub enum LyricsSyncPlan {
    /// Nothing changed, or this is a laboratory client: only the lyrics
    /// windows are redrawn.
    RefreshSurfaces,
    /// No track: the lyrics state is cleared.
    Clear,
    /// A new track: its lyrics are loaded, and the state shows `Loading`.
    Load(String),
}

/// The plan for a playback update, and whether the track's alias is recorded
/// first.
#[derive(Debug, Clone)]
pub struct LyricsSyncDecision {
    pub record_alias: bool,
    pub plan: LyricsSyncPlan,
}

pub open spec fn sync_plan_matches(
    d: LyricsSyncDecision,
    is_client: bool,
    force: bool,
    current_key: Option<Seq<char>>,
    next_key: Option<Seq<char>>,
    has_title: bool,
    has_artist: bool,
) -> bool {
    &&& d.record_alias == (!is_client && (force || current_key != next_key) && next_key is Some
        && has_title && has_artist)
    &&& if is_client || (!force && current_key == next_key) {
        d.plan is RefreshSurfaces
    } else {
        match next_key {
            None => d.plan is Clear,
            Some(k) => d.plan matches LyricsSyncPlan::Load(t) && t@ == k,
        }
    }
}

/// Decides what a playback update does to the lyrics state.
pub fn plan_lyrics_sync(
    is_client: bool,
    force: bool,
    current_key: &Option<String>,
    next_key: &Option<String>,
    has_title: bool,
    has_artist: bool,
) -> (r: LyricsSyncDecision)
    ensures
        sync_plan_matches(
            r,
            is_client,
            force,
            opt_view(*current_key),
            opt_view(*next_key),
            has_title,
            has_artist,
        ),
{
    if is_client {
        return LyricsSyncDecision { record_alias: false, plan: LyricsSyncPlan::RefreshSurfaces };
    }
    let unchanged = opt_str_eq(current_key, next_key);
    let record_alias = (force || !unchanged) && next_key.is_some() && has_title && has_artist;
    if !force && unchanged {
        return LyricsSyncDecision { record_alias, plan: LyricsSyncPlan::RefreshSurfaces };
    }
    match next_key {
        None => LyricsSyncDecision { record_alias, plan: LyricsSyncPlan::Clear },
        Some(k) => LyricsSyncDecision { record_alias, plan: LyricsSyncPlan::Load(k.clone()) },
    }
}

/// What the lyrics store held for the track.
#[derive(Debug, Clone)]
pub enum StoredLyrics {
    Found,
    Missing,
    Failed(String),
}

/// What the search of a track's lyrics answered.
#[derive(Debug, Clone)]
pub enum SearchReply {
    Answered { error: Option<String> },
    Failed(String),
}

/// The next step of the worker that loads a track's lyrics.
#[derive(Debug, Clone)]
pub enum LyricsWorkerStep {
    /// The state is published with this status and error.
    Publish { status: LyricsRuntimeStatus, error: Option<String> },
    /// The lyrics are searched for.
    Search,
    /// The best search result is applied if the search allows it.
    Apply,
    /// Nothing more is published.
    Stop,
}

pub open spec fn publishes(step: LyricsWorkerStep, status: LyricsRuntimeStatus, error: Option<Seq<char>>) -> bool {
    step matches LyricsWorkerStep::Publish { status: s, error: e } && s == status && opt_view(e)
        == error
}

/// The step after the store was read; `current` says whether the track is
/// still the one being loaded.
pub fn after_storage_load(stored: StoredLyrics, has_title_and_artist: bool, current: bool) -> (r:
    LyricsWorkerStep)
    ensures
        match stored {
            StoredLyrics::Found => if current {
                publishes(r, LyricsRuntimeStatus::Ready, None)
            } else {
                r is Stop
            },
            StoredLyrics::Failed(e) => if current {
                publishes(r, LyricsRuntimeStatus::Error, Some(e@))
            } else {
                r is Stop
            },
            StoredLyrics::Missing => if has_title_and_artist {
                r is Search
            } else if current {
                publishes(r, LyricsRuntimeStatus::NotFound, None)
            } else {
                r is Stop
            },
        },
{
    match stored {
        StoredLyrics::Found => if current {
            LyricsWorkerStep::Publish { status: LyricsRuntimeStatus::Ready, error: None }
        } else {
            LyricsWorkerStep::Stop
        },
        StoredLyrics::Failed(e) => if current {
            LyricsWorkerStep::Publish { status: LyricsRuntimeStatus::Error, error: Some(e) }
        } else {
            LyricsWorkerStep::Stop
        },
        StoredLyrics::Missing => if has_title_and_artist {
            LyricsWorkerStep::Search
        } else if current {
            LyricsWorkerStep::Publish { status: LyricsRuntimeStatus::NotFound, error: None }
        } else {
            LyricsWorkerStep::Stop
        },
    }
}

/// The step after the search answered.
pub fn after_search(reply: SearchReply, current: bool) -> (r: LyricsWorkerStep)
    ensures
        !current ==> r is Stop,
        current ==> match reply {
            SearchReply::Answered { error: Some(e) } => publishes(
                r,
                LyricsRuntimeStatus::Error,
                Some(e@),
            ),
            SearchReply::Answered { error: None } => r is Apply,
            SearchReply::Failed(e) => if e@ == LYRICS_SEARCH_INVALIDATED@ {
                publishes(r, LyricsRuntimeStatus::NotFound, None)
            } else {
                publishes(r, LyricsRuntimeStatus::Error, Some(e@))
            },
        },
{
    if !current {
        return LyricsWorkerStep::Stop;
    }
    match reply {
        SearchReply::Answered { error: Some(e) } => LyricsWorkerStep::Publish {
            status: LyricsRuntimeStatus::Error,
            error: Some(e),
        },
        SearchReply::Answered { error: None } => LyricsWorkerStep::Apply,
        SearchReply::Failed(e) => {
            if str_eq(e.as_str(), LYRICS_SEARCH_INVALIDATED) {
                LyricsWorkerStep::Publish { status: LyricsRuntimeStatus::NotFound, error: None }
            } else {
                LyricsWorkerStep::Publish { status: LyricsRuntimeStatus::Error, error: Some(e) }
            }
        },
    }
}

/// The status shown once a track's lyrics are settled: ready with a lyrics
/// document, not found without one.
pub fn settled_status(has_document: bool) -> (r: LyricsRuntimeStatus)
    ensures
        r == if has_document {
            LyricsRuntimeStatus::Ready
        } else {
            LyricsRuntimeStatus::NotFound
        },
{
    if has_document {
        LyricsRuntimeStatus::Ready
    } else {
        LyricsRuntimeStatus::NotFound
    }
}

/// What a search result offers beyond the plain lyrics.
#[derive(Debug, Clone, Copy, PartialEq, Eq, Structural)]
pub struct CandidateCapabilities {
    pub has_word_timing: bool,
    pub has_translation: bool,
    pub has_romanization: bool,
}

pub open spec fn capability_rank_spec(c: CandidateCapabilities, mode: SecondaryDisplayMode) -> (u8, u8) {
    let secondary: u8 = match mode {
        SecondaryDisplayMode::Translation => if c.has_translation {
            0
        } else {
            1
        },
        SecondaryDisplayMode::Romanization => if c.has_romanization {
            0
        } else {
            1
        },
        SecondaryDisplayMode::TranslationRomanization => if c.has_translation
            && c.has_romanization {
            0
        } else if c.has_translation {
            1
        } else if c.has_romanization {
            2
        } else {
            3
        },
        _ => 0,
    };
    (if c.has_word_timing {
        0u8
    } else {
        1u8
    }, secondary)
}

/// How well a result suits the display, lower first: word timing first, then
/// the second line that the display shows.
pub fn candidate_capability_rank(c: CandidateCapabilities, mode: SecondaryDisplayMode) -> (r: (
    u8,
    u8,
))
    ensures
        r == capability_rank_spec(c, mode),
{
    let secondary: u8 = match mode {
        SecondaryDisplayMode::Translation => if c.has_translation {
            0
        } else {
            1
        },
        SecondaryDisplayMode::Romanization => if c.has_romanization {
            0
        } else {
            1
        },
        SecondaryDisplayMode::TranslationRomanization => {
            if c.has_translation && c.has_romanization {
                0
            } else if c.has_translation {
                1
            } else if c.has_romanization {
                2
            } else {
                3
            }
        },
        SecondaryDisplayMode::Legacy | SecondaryDisplayMode::Next => 0,
    };
    (if c.has_word_timing {
        0
    } else {
        1
    }, secondary)
}

/// Which online results are kept: those whose lyrics (compared without
/// white space) neither a local result nor an earlier online result has.
pub open spec fn fresh_spec(local: Seq<Seq<char>>, online: Seq<Seq<char>>, i: int) -> bool {
    !local.contains(online[i]) && forall|j: int| 0 <= j < i ==> online[j] != online[i]
}

/// The views of a list of strings.
pub open spec fn strings_view(v: Seq<String>) -> Seq<Seq<char>> {
    v.map_values(|s: String| s@)
}

/// Marks the online results to keep, given the content keys of the local
/// and the online results.
pub fn fresh_online_results(local_keys: &Vec<String>, online_keys: &Vec<String>) -> (r: Vec<bool>)
    ensures
        r@.len() == online_keys@.len(),
        forall|i: int|
            0 <= i < r@.len() ==> r@[i] == fresh_spec(
                strings_view(local_keys@),
                strings_view(online_keys@),
                i,
            ),
{
    let ghost local = strings_view(local_keys@);
    let ghost online = strings_view(online_keys@);
    let mut out: Vec<bool> = Vec::new();
    let mut i: usize = 0;
    while i < online_keys.len()
        invariant
            i <= online_keys@.len(),
            local == strings_view(local_keys@),
            online == strings_view(online_keys@),
            out@.len() == i,
            forall|k: int| 0 <= k < i ==> out@[k] == fresh_spec(local, online, k),
        decreases online_keys@.len() - i,
    {
        let key = online_keys[i].as_str();
        let mut seen = false;
        let mut j: usize = 0;
        while j < local_keys.len()
            invariant
                j <= local_keys@.len(),
                local == strings_view(local_keys@),
                online == strings_view(online_keys@),
                i < online_keys@.len(),
                key@ == online[i as int],
                seen == exists|m: int| 0 <= m < j && local[m] == online[i as int],
            decreases local_keys@.len() - j,
        {
            assert(local[j as int] == local_keys@[j as int]@);
            if str_eq(local_keys[j].as_str(), key) {
                seen = true;
            }
            assert(seen == exists|m: int| 0 <= m < j + 1 && local[m] == online[i as int]) by {
                if seen && !(local[j as int] == online[i as int]) {
                    let w = choose|m: int| 0 <= m < j && local[m] == online[i as int];
                    assert(0 <= w < j + 1 && local[w] == online[i as int]);
                }
                if local[j as int] == online[i as int] {
                    assert(0 <= j < j + 1 && local[j as int] == online[i as int]);
                }
            }
            j = j + 1;
        }
        assert(seen == local.contains(online[i as int]));
        let mut earlier = false;
        let mut k: usize = 0;
        while k < i
            invariant
                k <= i < online_keys@.len(),
                online == strings_view(online_keys@),
                key@ == online[i as int],
                earlier == exists|m: int| 0 <= m < k && online[m] == online[i as int],
            decreases i - k,
        {
            assert(online[k as int] == online_keys@[k as int]@);
            if str_eq(online_keys[k].as_str(), key) {
                earlier = true;
            }
            assert(earlier == exists|m: int| 0 <= m < k + 1 && online[m] == online[i as int]) by {
                if earlier && !(online[k as int] == online[i as int]) {
                    let w = choose|m: int| 0 <= m < k && online[m] == online[i as int];
                    assert(0 <= w < k + 1 && online[w] == online[i as int]);
                }
                if online[k as int] == online[i as int] {
                    assert(0 <= k < k + 1 && online[k as int] == online[i as int]);
                }
            }
            k = k + 1;
        }
        out.push(!seen && !earlier);
        i = i + 1;
    }
    out
}

/// A display as the lyrics settings list it: its identifier, its name (empty
/// without one), its size, and whether it is the primary display.
pub fn lyrics_monitor(
    name: Option<&str>,
    position: (i32, i32),
    size: (u32, u32),
    primary_id: &Option<String>,
) -> (r: LyricsMonitor)
    ensures
        r.id@ == crate::window_layout::notch_monitor_id_spec(
            match name {
                Some(n) => Some(n@),
                None => None,
            },
            position,
            size,
        ),
        r.name@ == match name {
            Some(n) => n@,
            None => seq![],
        },
        r.width == size.0,
        r.height == size.1,
        r.is_primary == (opt_view(*primary_id) == Some(r.id@)),
{
    let id = crate::window_layout::notch_monitor_id(name, position, size);
    let is_primary = match primary_id {
        Some(p) => str_eq(p.as_str(), id.as_str()),
        None => false,
    };
    let name = match name {
        Some(n) => string_from_chars(&chars_of(n)),
        None => string_from_chars(&Vec::new()),
    };
    LyricsMonitor { id, name, width: size.0, height: size.1, is_primary }
}

} // verus!
