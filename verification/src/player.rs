use vstd::prelude::*;

use crate::config::{
    is_dedicated_player_bundle_id, is_dedicated_player_spec, RegisteredApplication,
    SystemMediaFilterMode,
};
use crate::text::{
    chars_of, collapse_whitespace, collapse_whitespace_spec, decimal_spec, push_chars,
    push_decimal, push_str, str_eq, string_from_chars, to_lowercase, unicode_lowercase,
};

verus! {

/// A player that the application can follow.
#[derive(Debug, Clone, Copy, PartialEq, Eq, Structural)]
pub enum PlayerKind {
    AppleMusic,
    Spotify,
    System,
}

/// The user's choice of player; `Auto` lets the application route.
#[derive(Debug, Clone, Copy, PartialEq, Eq, Structural)]
pub enum PlayerSelection {
    Auto,
    AppleMusic,
    Spotify,
    System,
}

/// Stable codes for the reasons a snapshot carries no usable playback.
#[derive(Debug, Clone, Copy, PartialEq, Eq, Structural)]
pub enum PlaybackErrorCode {
    Waiting,
    NotInstalled,
    AutomationDenied,
    ResponseTimeout,
    InvalidResponse,
    MultiplePlaying,
    NoUniquePlayer,
    SourceNotAllowed,
    Unavailable,
}

/// A transport command for a player.
#[derive(Debug, Clone, Copy, PartialEq, Eq, Structural)]
pub enum PlaybackAction {
    Play,
    Pause,
    TogglePlayPause,
    Previous,
    Next,
}

/// Cover art of the current track, base64-encoded.
#[derive(Debug, Clone)]
pub struct PlaybackArtwork {
    pub id: String,
    pub mime_type: String,
    pub data_base64: String,
}

impl PlayerSelection {
    /// The player that this selection pins, if any.
    pub open spec fn preferred_kind_spec(self) -> Option<PlayerKind> {
        match self {
            PlayerSelection::Auto => None,
            PlayerSelection::AppleMusic => Some(PlayerKind::AppleMusic),
            PlayerSelection::Spotify => Some(PlayerKind::Spotify),
            PlayerSelection::System => Some(PlayerKind::System),
        }
    }

    /// The player that this selection pins; `None` for `Auto`.
    pub fn preferred_kind(self) -> (r: Option<PlayerKind>)
        ensures
            r == self.preferred_kind_spec(),
    {
        match self {
            PlayerSelection::Auto => None,
            PlayerSelection::AppleMusic => Some(PlayerKind::AppleMusic),
            PlayerSelection::Spotify => Some(PlayerKind::Spotify),
            PlayerSelection::System => Some(PlayerKind::System),
        }
    }

    /// The stored name of a selection.
    pub open spec fn stored_name(self) -> Seq<char> {
        match self {
            PlayerSelection::Auto => "auto"@,
            PlayerSelection::AppleMusic => "apple_music"@,
            PlayerSelection::Spotify => "spotify"@,
            PlayerSelection::System => "system"@,
        }
    }

    /// The selection that a stored value names; anything unknown is `Auto`.
    pub open spec fn from_stored_spec(value: Option<Seq<char>>) -> PlayerSelection {
        match value {
            Some(v) => if v == "apple_music"@ {
                PlayerSelection::AppleMusic
            } else if v == "spotify"@ {
                PlayerSelection::Spotify
            } else if v == "system"@ {
                PlayerSelection::System
            } else {
                PlayerSelection::Auto
            },
            None => PlayerSelection::Auto,
        }
    }

    /// Restores a selection from its stored name.
    pub fn from_stored(value: Option<String>) -> (r: Self)
        ensures
            r == Self::from_stored_spec(
                match value {
                    Some(v) => Some(v@),
                    None => None,
                },
            ),
    {
        match value {
            Some(v) => {
                if str_eq(v.as_str(), "apple_music") {
                    PlayerSelection::AppleMusic
                } else if str_eq(v.as_str(), "spotify") {
                    PlayerSelection::Spotify
                } else if str_eq(v.as_str(), "system") {
                    PlayerSelection::System
                } else {
                    PlayerSelection::Auto
                }
            },
            None => PlayerSelection::Auto,
        }
    }
}

/// What the application knows of the current playback at one moment.
#[derive(Debug, Clone)]
pub struct PlaybackSnapshot {
    pub player: Option<PlayerKind>,
    pub is_running: bool,
    pub is_playing: bool,
    pub track_id: Option<String>,
    pub title: Option<String>,
    pub artist: Option<String>,
    pub album: Option<String>,
    pub source_app_name: Option<String>,
    pub source_app_bundle_id: Option<String>,
    pub artwork_id: Option<String>,
    pub duration_ms: Option<u64>,
    pub position_ms: Option<u64>,
    pub observed_at_ms: u64,
    pub error_code: Option<PlaybackErrorCode>,
    pub error: Option<String>,
}

/// The view of an optional string.
pub open spec fn opt_view(o: Option<String>) -> Option<Seq<char>> {
    match o {
        Some(s) => Some(s@),
        None => None,
    }
}

/// A copy of an optional string.
pub fn clone_opt_string(o: &Option<String>) -> (r: Option<String>)
    ensures
        r == *o,
{
    match o {
        Some(s) => Some(s.clone()),
        None => None,
    }
}

impl Default for PlaybackSnapshot {
    fn default() -> (r: Self)
        ensures
            r.player is None,
            !r.is_running,
            !r.is_playing,
            r.track_id is None,
            r.title is None,
            r.artist is None,
            r.album is None,
            r.source_app_name is None,
            r.source_app_bundle_id is None,
            r.artwork_id is None,
            r.duration_ms is None,
            r.position_ms is None,
            r.observed_at_ms == 0,
            r.error_code is None,
            r.error is None,
    {
        PlaybackSnapshot {
            player: None,
            is_running: false,
            is_playing: false,
            track_id: None,
            title: None,
            artist: None,
            album: None,
            source_app_name: None,
            source_app_bundle_id: None,
            artwork_id: None,
            duration_ms: None,
            position_ms: None,
            observed_at_ms: 0,
            error_code: None,
            error: None,
        }
    }
}

/// Milliseconds since the Unix epoch, read from `std::time::SystemTime::now`;
/// nothing is claimed of the value.
#[verifier::external_body]
fn now_ms() -> u64 {
    std::time::SystemTime::now().duration_since(std::time::UNIX_EPOCH).unwrap_or_default().as_millis() as u64
}

/// The text of the waiting snapshot.
pub open spec fn waiting_message() -> Seq<char> {
    "等待播放器"@
}

impl PlaybackSnapshot {
    /// Every field but the source application and the observation time
    /// describes a snapshot without playback, with this player, code and error.
    pub open spec fn is_unavailable_core(
        self,
        player: Option<PlayerKind>,
        code: PlaybackErrorCode,
        error: Seq<char>,
    ) -> bool {
        &&& self.player == player
        &&& !self.is_running
        &&& !self.is_playing
        &&& self.track_id is None
        &&& self.title is None
        &&& self.artist is None
        &&& self.album is None
        &&& self.artwork_id is None
        &&& self.duration_ms is None
        &&& self.position_ms is None
        &&& self.error_code == Some(code)
        &&& opt_view(self.error) == Some(error)
    }

    /// A snapshot without playback that reports `code` and `error`.
    pub open spec fn is_unavailable(
        self,
        player: Option<PlayerKind>,
        code: PlaybackErrorCode,
        error: Seq<char>,
    ) -> bool {
        &&& self.is_unavailable_core(player, code, error)
        &&& self.source_app_name is None
        &&& self.source_app_bundle_id is None
    }

    /// The snapshot shown while no player has reported yet.
    pub fn empty() -> (r: Self)
        ensures
            r.is_unavailable(None, PlaybackErrorCode::Waiting, waiting_message()),
    {
        Self::unavailable_with_code(None, PlaybackErrorCode::Waiting, String::from_str("等待播放器"))
    }

    /// A snapshot without playback, with the generic `Unavailable` code.
    pub fn unavailable(player: Option<PlayerKind>, error: String) -> (r: Self)
        ensures
            r.is_unavailable(player, PlaybackErrorCode::Unavailable, error@),
    {
        Self::unavailable_with_code(player, PlaybackErrorCode::Unavailable, error)
    }

    /// A snapshot without playback that reports `error_code` and `error`,
    /// stamped with the current time (read from the system clock, of which
    /// nothing is claimed; `unavailable_at` takes the time as an argument).
    pub fn unavailable_with_code(
        player: Option<PlayerKind>,
        error_code: PlaybackErrorCode,
        error: String,
    ) -> (r: Self)
        ensures
            r.is_unavailable(player, error_code, error@),
    {
        Self::unavailable_at(player, error_code, error, now_ms())
    }

    /// A snapshot without playback that reports `error_code` and `error`,
    /// observed at `observed_at_ms`.
    pub fn unavailable_at(
        player: Option<PlayerKind>,
        error_code: PlaybackErrorCode,
        error: String,
        observed_at_ms: u64,
    ) -> (r: Self)
        ensures
            r.is_unavailable(player, error_code, error@),
            r.observed_at_ms == observed_at_ms,
    {
        PlaybackSnapshot {
            player,
            is_running: false,
            is_playing: false,
            track_id: None,
            title: None,
            artist: None,
            album: None,
            source_app_name: None,
            source_app_bundle_id: None,
            artwork_id: None,
            duration_ms: None,
            position_ms: None,
            observed_at_ms,
            error_code: Some(error_code),
            error: Some(error),
        }
    }

    /// Whether the snapshot is of `player` and of the track `track_id`.
    pub fn matches_track(&self, player: PlayerKind, track_id: &str) -> (r: bool)
        ensures
            r == (self.player == Some(player) && opt_view(self.track_id) == Some(track_id@)),
    {
        if self.player != Some(player) {
            return false;
        }
        match &self.track_id {
            Some(id) => str_eq(id.as_str(), track_id),
            None => false,
        }
    }

    /// A field-by-field copy of the snapshot.
    pub fn duplicate(&self) -> (r: Self)
        ensures
            r == *self,
    {
        PlaybackSnapshot {
            player: self.player,
            is_running: self.is_running,
            is_playing: self.is_playing,
            track_id: clone_opt_string(&self.track_id),
            title: clone_opt_string(&self.title),
            artist: clone_opt_string(&self.artist),
            album: clone_opt_string(&self.album),
            source_app_name: clone_opt_string(&self.source_app_name),
            source_app_bundle_id: clone_opt_string(&self.source_app_bundle_id),
            artwork_id: clone_opt_string(&self.artwork_id),
            duration_ms: self.duration_ms,
            position_ms: self.position_ms,
            observed_at_ms: self.observed_at_ms,
            error_code: self.error_code,
            error: clone_opt_string(&self.error),
        }
    }
}

/// A track title or artist with white space collapsed and letters lowercased.
pub open spec fn normalized_component_spec(value: Seq<char>) -> Seq<char> {
    unicode_lowercase(collapse_whitespace_spec(value))
}

/// Collapses white space runs to one space, trims, and lowercases.
pub fn normalized_track_component(value: &str) -> (r: Vec<char>)
    ensures
        r@ == normalized_component_spec(value@),
{
    let chars = chars_of(value);
    let collapsed = collapse_whitespace(&chars);
    to_lowercase(&collapsed)
}

/// The identifier derived from title, artist and duration when a player
/// reports none.
pub open spec fn fallback_track_id(title: Seq<char>, artist: Seq<char>, duration_ms: u64) -> Seq<
    char,
> {
    "fallback:"@ + normalized_component_spec(title) + "|"@ + normalized_component_spec(artist)
        + "|"@ + decimal_spec(duration_ms as nat)
}

/// Whether a snapshot already has a track identifier of its own.
pub open spec fn has_own_track_id(snapshot: PlaybackSnapshot) -> bool {
    snapshot.track_id matches Some(id) && id@.len() > 0
}

/// Gives a snapshot without a track identifier one derived from its title,
/// artist and duration; a snapshot with an identifier, or without title or
/// artist, is left as it is.
pub fn ensure_track_id(snapshot: &mut PlaybackSnapshot)
    ensures
        (has_own_track_id(*old(snapshot)) || old(snapshot).title is None || old(
            snapshot,
        ).artist is None) ==> *final(snapshot) == *old(snapshot),
        !(has_own_track_id(*old(snapshot)) || old(snapshot).title is None || old(
            snapshot,
        ).artist is None) ==> {
            &&& opt_view(final(snapshot).track_id) == Some(
                fallback_track_id(
                    old(snapshot).title->0@,
                    old(snapshot).artist->0@,
                    match old(snapshot).duration_ms {
                        Some(d) => d,
                        None => 0,
                    },
                ),
            )
            &&& *final(snapshot) == PlaybackSnapshot {
                track_id: final(snapshot).track_id,
                ..*old(snapshot)
            }
        },
{
    let has_id = match &snapshot.track_id {
        Some(id) => !id.as_str().is_empty(),
        None => false,
    };
    if has_id {
        return;
    }
    let id = match (&snapshot.title, &snapshot.artist) {
        (Some(title), Some(artist)) => {
            let mut out: Vec<char> = Vec::new();
            push_str(&mut out, "fallback:");
            let t = normalized_track_component(title.as_str());
            push_chars(&mut out, &t);
            push_str(&mut out, "|");
            let a = normalized_track_component(artist.as_str());
            push_chars(&mut out, &a);
            push_str(&mut out, "|");
            let d = match snapshot.duration_ms {
                Some(d) => d,
                None => 0,
            };
            push_decimal(d, &mut out);
            string_from_chars(&out)
        },
        _ => {
            return;
        },
    };
    snapshot.track_id = Some(id);
}


/// Whether the list registers an application with this bundle identifier.
pub open spec fn lists_bundle(applications: Seq<RegisteredApplication>, bundle_id: Seq<char>) -> bool {
    exists|i: int| 0 <= i < applications.len() && (#[trigger] applications[i]).bundle_id@ == bundle_id
}

/// Whether the system source with this bundle identifier may be followed
/// under the filter mode and application list.
pub open spec fn source_allowed_spec(
    bundle_id: Option<String>,
    mode: SystemMediaFilterMode,
    applications: Seq<RegisteredApplication>,
) -> bool {
    match bundle_id {
        None => mode == SystemMediaFilterMode::Blocklist,
        Some(b) => is_dedicated_player_spec(b@) || (lists_bundle(applications, b@) == (mode
            == SystemMediaFilterMode::Allowlist)),
    }
}

/// The source of a snapshot is allowed, or the snapshot reports nothing running.
pub open spec fn passes_filter(
    snapshot: PlaybackSnapshot,
    mode: SystemMediaFilterMode,
    applications: Seq<RegisteredApplication>,
) -> bool {
    !snapshot.is_running || source_allowed_spec(snapshot.source_app_bundle_id, mode, applications)
}

/// Decides whether the application behind a system snapshot may be followed.
/// Apple Music and Spotify always may; a snapshot without a source only under
/// a blocklist; any other application when its listing agrees with the mode.
pub fn system_source_allowed(
    snapshot: &PlaybackSnapshot,
    mode: SystemMediaFilterMode,
    applications: &[RegisteredApplication],
) -> (r: bool)
    ensures
        r == source_allowed_spec(snapshot.source_app_bundle_id, mode, applications@),
{
    let bundle_id = match &snapshot.source_app_bundle_id {
        Some(b) => b,
        None => {
            return mode == SystemMediaFilterMode::Blocklist;
        },
    };
    if is_dedicated_player_bundle_id(bundle_id.as_str()) {
        return true;
    }
    let mut listed = false;
    let mut i: usize = 0;
    while i < applications.len()
        invariant
            i <= applications@.len(),
            listed == exists|j: int|
                0 <= j < i && (#[trigger] applications@[j]).bundle_id@ == bundle_id@,
        decreases applications@.len() - i,
    {
        if str_eq(applications[i].bundle_id.as_str(), bundle_id.as_str()) {
            listed = true;
        }
        i = i + 1;
    }
    listed == (mode == SystemMediaFilterMode::Allowlist)
}

/// The message of a snapshot whose source the filter rejects.
pub open spec fn source_block_message(mode: SystemMediaFilterMode) -> Seq<char> {
    match mode {
        SystemMediaFilterMode::Allowlist => "当前系统播放应用不在允许列表中"@,
        SystemMediaFilterMode::Blocklist => "当前系统播放应用在排除列表中"@,
    }
}

impl PlaybackSnapshot {
    /// The snapshot that replaces `original` when its source is rejected: a
    /// system snapshot without playback that keeps the source application.
    pub open spec fn is_source_blocked(
        self,
        original: PlaybackSnapshot,
        mode: SystemMediaFilterMode,
    ) -> bool {
        &&& self.is_unavailable_core(
            Some(PlayerKind::System),
            PlaybackErrorCode::SourceNotAllowed,
            source_block_message(mode),
        )
        &&& self.source_app_name == original.source_app_name
        &&& self.source_app_bundle_id == original.source_app_bundle_id
    }
}

/// The replacement for a snapshot whose source application is rejected.
pub fn source_not_allowed(snapshot: &PlaybackSnapshot, mode: SystemMediaFilterMode) -> (r:
    PlaybackSnapshot)
    ensures
        r.is_source_blocked(*snapshot, mode),
{
    let message = match mode {
        SystemMediaFilterMode::Allowlist => String::from_str("当前系统播放应用不在允许列表中"),
        SystemMediaFilterMode::Blocklist => String::from_str("当前系统播放应用在排除列表中"),
    };
    let mut unavailable = PlaybackSnapshot::unavailable_with_code(
        Some(PlayerKind::System),
        PlaybackErrorCode::SourceNotAllowed,
        message,
    );
    unavailable.source_app_name = clone_opt_string(&snapshot.source_app_name);
    unavailable.source_app_bundle_id = clone_opt_string(&snapshot.source_app_bundle_id);
    unavailable
}

/// Keeps a snapshot that reports nothing running or whose source is allowed,
/// and replaces any other by the rejection snapshot.
pub fn filter_system_source(
    snapshot: PlaybackSnapshot,
    mode: SystemMediaFilterMode,
    applications: &[RegisteredApplication],
) -> (r: PlaybackSnapshot)
    ensures
        passes_filter(snapshot, mode, applications@) ==> r == snapshot,
        !passes_filter(snapshot, mode, applications@) ==> r.is_source_blocked(snapshot, mode),
{
    if !snapshot.is_running || system_source_allowed(&snapshot, mode, applications) {
        snapshot
    } else {
        source_not_allowed(&snapshot, mode)
    }
}

/// Where the automatic routing takes its snapshot from.
pub enum AutoRoute {
    /// The Apple Music snapshot.
    Music,
    /// The Spotify snapshot.
    Spotify,
    /// The system snapshot as reported.
    SystemAsReported,
    /// The rejection snapshot for the system source.
    SystemBlocked,
    /// A snapshot without playback with this code.
    Unavailable(PlaybackErrorCode),
}

/// The system source is playing Apple Music.
pub open spec fn system_plays_music(system: PlaybackSnapshot) -> bool {
    system.is_playing && (system.source_app_bundle_id matches Some(b) && b@ == "com.apple.Music"@)
}

/// The system source is playing Spotify.
pub open spec fn system_plays_spotify(system: PlaybackSnapshot) -> bool {
    system.is_playing && (system.source_app_bundle_id matches Some(b) && b@
        == "com.spotify.client"@)
}

/// The system source is playing another application that the filter lets
/// through and that was not already rejected.
pub open spec fn system_plays_other_allowed(
    system: PlaybackSnapshot,
    mode: SystemMediaFilterMode,
    applications: Seq<RegisteredApplication>,
) -> bool {
    &&& system.is_playing
    &&& !system_plays_music(system)
    &&& !system_plays_spotify(system)
    &&& passes_filter(system, mode, applications)
    &&& system.error_code != Some(PlaybackErrorCode::SourceNotAllowed)
}

/// The previously followed system source is still running a track.
pub open spec fn keeps_previous_system(
    system: PlaybackSnapshot,
    previous: Option<PlayerKind>,
    mode: SystemMediaFilterMode,
    applications: Seq<RegisteredApplication>,
) -> bool {
    &&& previous == Some(PlayerKind::System)
    &&& system.is_running
    &&& system.title is Some
    &&& source_allowed_spec(system.source_app_bundle_id, mode, applications)
}

/// The routing settles before either dedicated player is asked.
pub open spec fn settles_on_system(
    system: PlaybackSnapshot,
    previous: Option<PlayerKind>,
    mode: SystemMediaFilterMode,
    applications: Seq<RegisteredApplication>,
) -> bool {
    system_plays_other_allowed(system, mode, applications) || (!system_plays_music(system)
        && !system_plays_spotify(system) && keeps_previous_system(
        system,
        previous,
        mode,
        applications,
    ))
}

/// Whether the routing asks Apple Music for a snapshot.
pub open spec fn asks_music(
    system: PlaybackSnapshot,
    previous: Option<PlayerKind>,
    mode: SystemMediaFilterMode,
    applications: Seq<RegisteredApplication>,
) -> bool {
    !system_plays_spotify(system) && !settles_on_system(system, previous, mode, applications)
}

/// Whether the routing asks Spotify for a snapshot.
pub open spec fn asks_spotify(
    system: PlaybackSnapshot,
    previous: Option<PlayerKind>,
    mode: SystemMediaFilterMode,
    applications: Seq<RegisteredApplication>,
) -> bool {
    !system_plays_music(system) && !settles_on_system(system, previous, mode, applications)
}

/// The automatic routing decision, given what Apple Music and Spotify
/// answered (read only where `asks_music` and `asks_spotify` hold): the source
/// of the snapshot, and the player to remember for the next round.
pub open spec fn auto_route(
    system: PlaybackSnapshot,
    previous: Option<PlayerKind>,
    mode: SystemMediaFilterMode,
    applications: Seq<RegisteredApplication>,
    music: PlaybackSnapshot,
    spotify: PlaybackSnapshot,
) -> (AutoRoute, Option<PlayerKind>) {
    if system_plays_music(system) {
        if music.is_playing {
            (AutoRoute::Music, Some(PlayerKind::AppleMusic))
        } else {
            (AutoRoute::SystemAsReported, Some(PlayerKind::System))
        }
    } else if system_plays_spotify(system) {
        if spotify.is_playing {
            (AutoRoute::Spotify, Some(PlayerKind::Spotify))
        } else {
            (AutoRoute::SystemAsReported, Some(PlayerKind::System))
        }
    } else if system_plays_other_allowed(system, mode, applications) {
        (AutoRoute::SystemAsReported, Some(PlayerKind::System))
    } else if keeps_previous_system(system, previous, mode, applications) {
        (AutoRoute::SystemAsReported, previous)
    } else if music.is_playing && spotify.is_playing {
        (AutoRoute::Unavailable(PlaybackErrorCode::MultiplePlaying), None)
    } else if music.is_playing {
        (AutoRoute::Music, Some(PlayerKind::AppleMusic))
    } else if spotify.is_playing {
        (AutoRoute::Spotify, Some(PlayerKind::Spotify))
    } else if previous == Some(PlayerKind::AppleMusic) && music.is_running && music.title is Some {
        (AutoRoute::Music, previous)
    } else if previous == Some(PlayerKind::Spotify) && spotify.is_running && spotify.title is Some {
        (AutoRoute::Spotify, previous)
    } else if !passes_filter(system, mode, applications) {
        (AutoRoute::SystemBlocked, Some(PlayerKind::System))
    } else if system.error_code == Some(PlaybackErrorCode::SourceNotAllowed) {
        (AutoRoute::SystemAsReported, Some(PlayerKind::System))
    } else {
        (AutoRoute::Unavailable(PlaybackErrorCode::NoUniquePlayer), None)
    }
}

/// The message of the snapshots that the routing makes up itself.
pub open spec fn auto_unavailable_message(code: PlaybackErrorCode) -> Seq<char> {
    if code == PlaybackErrorCode::MultiplePlaying {
        "Apple Music 与 Spotify 同时在播放，请手动选择播放器"@
    } else {
        "未检测到唯一正在播放的 Apple Music 或 Spotify"@
    }
}

/// The snapshot `r` is the one that `route` names.
pub open spec fn routed_snapshot(
    r: PlaybackSnapshot,
    route: AutoRoute,
    system: PlaybackSnapshot,
    mode: SystemMediaFilterMode,
    music: PlaybackSnapshot,
    spotify: PlaybackSnapshot,
) -> bool {
    match route {
        AutoRoute::Music => r == music,
        AutoRoute::Spotify => r == spotify,
        AutoRoute::SystemAsReported => r == system,
        AutoRoute::SystemBlocked => r.is_source_blocked(system, mode),
        AutoRoute::Unavailable(code) => r.is_unavailable(None, code, auto_unavailable_message(code)),
    }
}

/// `music` and `spotify` are answers that `query` gave where the routing asks,
/// and `r` is what the routing makes of them.
pub open spec fn auto_outcome<F: Fn(PlayerKind) -> PlaybackSnapshot>(
    query: F,
    system: PlaybackSnapshot,
    previous: Option<PlayerKind>,
    mode: SystemMediaFilterMode,
    applications: Seq<RegisteredApplication>,
    music: PlaybackSnapshot,
    spotify: PlaybackSnapshot,
    r: (PlaybackSnapshot, Option<PlayerKind>),
) -> bool {
    let route = auto_route(system, previous, mode, applications, music, spotify);
    &&& asks_music(system, previous, mode, applications) ==> call_ensures(
        query,
        (PlayerKind::AppleMusic,),
        music,
    )
    &&& asks_spotify(system, previous, mode, applications) ==> call_ensures(
        query,
        (PlayerKind::Spotify,),
        spotify,
    )
    &&& r.1 == route.1
    &&& routed_snapshot(r.0, route.0, system, mode, music, spotify)
}

/// Chooses the player to follow when the selection is automatic. A playing
/// system source wins, handing over to Apple Music or Spotify when the system
/// reports one of them and it is playing too; otherwise the previous system
/// source is kept while it still has a track; otherwise the dedicated players
/// are asked, and exactly one of them must be playing, or the previously
/// followed one must still have a track.
pub fn query_auto_player<F: Fn(PlayerKind) -> PlaybackSnapshot>(
    system: PlaybackSnapshot,
    previous_auto_player: Option<PlayerKind>,
    system_media_filter_mode: SystemMediaFilterMode,
    system_media_applications: &[RegisteredApplication],
    query: F,
) -> (r: (PlaybackSnapshot, Option<PlayerKind>))
    requires
        call_requires(query, (PlayerKind::AppleMusic,)),
        call_requires(query, (PlayerKind::Spotify,)),
    ensures
        exists|music: PlaybackSnapshot, spotify: PlaybackSnapshot|
            #[trigger] auto_outcome(
                query,
                system,
                previous_auto_player,
                system_media_filter_mode,
                system_media_applications@,
                music,
                spotify,
                r,
            ),
{
    let ghost apps = system_media_applications@;
    let ghost sys = system;
    let mode = system_media_filter_mode;
    let previous = previous_auto_player;
    if system.is_playing {
        let bundle_music = match &system.source_app_bundle_id {
            Some(b) => str_eq(b.as_str(), "com.apple.Music"),
            None => false,
        };
        let bundle_spotify = match &system.source_app_bundle_id {
            Some(b) => str_eq(b.as_str(), "com.spotify.client"),
            None => false,
        };
        if bundle_music {
            let music = query(PlayerKind::AppleMusic);
            let r = if music.is_playing {
                (music, Some(PlayerKind::AppleMusic))
            } else {
                (system, Some(PlayerKind::System))
            };
            assert(auto_outcome(query, sys, previous, mode, apps, music, sys, r));
            return r;
        }
        if bundle_spotify {
            proof {
                vstd::string::axiom_str_literal_len("com.apple.Music");
                vstd::string::axiom_str_literal_len("com.spotify.client");
                assert("com.apple.Music"@ != "com.spotify.client"@);
            }
            let spotify = query(PlayerKind::Spotify);
            let r = if spotify.is_playing {
                (spotify, Some(PlayerKind::Spotify))
            } else {
                (system, Some(PlayerKind::System))
            };
            assert(auto_outcome(query, sys, previous, mode, apps, sys, spotify, r));
            return r;
        }
        let allowed = system_source_allowed(&system, mode, system_media_applications);
        if (!system.is_running || allowed) && system.error_code != Some(
            PlaybackErrorCode::SourceNotAllowed,
        ) {
            let r = (system, Some(PlayerKind::System));
            assert(auto_outcome(query, sys, previous, mode, apps, sys, sys, r));
            return r;
        }
    }
    let allowed = system_source_allowed(&system, mode, system_media_applications);
    if previous == Some(PlayerKind::System) && system.is_running && system.title.is_some()
        && allowed {
        let r = (system, previous);
        assert(auto_outcome(query, sys, previous, mode, apps, sys, sys, r));
        return r;
    }
    let music = query(PlayerKind::AppleMusic);
    let spotify = query(PlayerKind::Spotify);
    let ghost m = music;
    let ghost s = spotify;
    let r = if music.is_playing && spotify.is_playing {
        (
            PlaybackSnapshot::unavailable_with_code(
                None,
                PlaybackErrorCode::MultiplePlaying,
                String::from_str("Apple Music 与 Spotify 同时在播放，请手动选择播放器"),
            ),
            None,
        )
    } else if music.is_playing {
        (music, Some(PlayerKind::AppleMusic))
    } else if spotify.is_playing {
        (spotify, Some(PlayerKind::Spotify))
    } else if previous == Some(PlayerKind::AppleMusic) && music.is_running && music.title.is_some() {
        (music, previous)
    } else if previous == Some(PlayerKind::Spotify) && spotify.is_running
        && spotify.title.is_some() {
        (spotify, previous)
    } else if system.is_running && !allowed {
        (source_not_allowed(&system, mode), Some(PlayerKind::System))
    } else if system.error_code == Some(PlaybackErrorCode::SourceNotAllowed) {
        (system, Some(PlayerKind::System))
    } else {
        (
            PlaybackSnapshot::unavailable_with_code(
                None,
                PlaybackErrorCode::NoUniquePlayer,
                String::from_str("未检测到唯一正在播放的 Apple Music 或 Spotify"),
            ),
            None,
        )
    };
    assert(auto_outcome(query, sys, previous, mode, apps, m, s, r));
    r
}


/// When the automatic routing reaches the dedicated players (the system
/// source is not playing and Apple Music was the player followed), and
/// neither Apple Music nor Spotify is playing, an Apple Music that still runs
/// with a track is kept: the result is its snapshot, and Apple Music stays the
/// remembered player. `r` is any result that `query_auto_player` may return
/// for these inputs, and `query` answers for each player what it answers.
pub proof fn paused_apple_music_stays_followed<F: Fn(PlayerKind) -> PlaybackSnapshot>(
    query: F,
    system: PlaybackSnapshot,
    mode: SystemMediaFilterMode,
    applications: Seq<RegisteredApplication>,
    music: PlaybackSnapshot,
    spotify: PlaybackSnapshot,
    r: (PlaybackSnapshot, Option<PlayerKind>),
)
    requires
        exists|m: PlaybackSnapshot, s: PlaybackSnapshot|
            #[trigger] auto_outcome(
                query,
                system,
                Some(PlayerKind::AppleMusic),
                mode,
                applications,
                m,
                s,
                r,
            ),
        forall|m: PlaybackSnapshot| #[trigger]
            call_ensures(query, (PlayerKind::AppleMusic,), m) ==> m == music,
        forall|s: PlaybackSnapshot| #[trigger]
            call_ensures(query, (PlayerKind::Spotify,), s) ==> s == spotify,
        !system.is_playing,
        !music.is_playing,
        !spotify.is_playing,
        music.is_running,
        music.title is Some,
    ensures
        r.0 == music,
        r.1 == Some(PlayerKind::AppleMusic),
{
    let previous = Some(PlayerKind::AppleMusic);
    let (m, s) = choose|m: PlaybackSnapshot, s: PlaybackSnapshot|
        #[trigger] auto_outcome(query, system, previous, mode, applications, m, s, r);
    assert(asks_music(system, previous, mode, applications));
    assert(asks_spotify(system, previous, mode, applications));
    assert(m == music);
    assert(s == spotify);
}

/// When the automatic routing reaches the dedicated players (the system
/// source is not playing and Spotify was the player followed), and neither
/// Apple Music nor Spotify is playing, a Spotify that still runs with a track
/// is kept: the result is its snapshot, and Spotify stays the remembered
/// player. `r` is any result that `query_auto_player` may return for these
/// inputs, and `query` answers for each player what it answers.
pub proof fn paused_spotify_stays_followed<F: Fn(PlayerKind) -> PlaybackSnapshot>(
    query: F,
    system: PlaybackSnapshot,
    mode: SystemMediaFilterMode,
    applications: Seq<RegisteredApplication>,
    music: PlaybackSnapshot,
    spotify: PlaybackSnapshot,
    r: (PlaybackSnapshot, Option<PlayerKind>),
)
    requires
        exists|m: PlaybackSnapshot, s: PlaybackSnapshot|
            #[trigger] auto_outcome(
                query,
                system,
                Some(PlayerKind::Spotify),
                mode,
                applications,
                m,
                s,
                r,
            ),
        forall|m: PlaybackSnapshot| #[trigger]
            call_ensures(query, (PlayerKind::AppleMusic,), m) ==> m == music,
        forall|s: PlaybackSnapshot| #[trigger]
            call_ensures(query, (PlayerKind::Spotify,), s) ==> s == spotify,
        !system.is_playing,
        !music.is_playing,
        !spotify.is_playing,
        spotify.is_running,
        spotify.title is Some,
    ensures
        r.0 == spotify,
        r.1 == Some(PlayerKind::Spotify),
{
    let previous = Some(PlayerKind::Spotify);
    let (m, s) = choose|m: PlaybackSnapshot, s: PlaybackSnapshot|
        #[trigger] auto_outcome(query, system, previous, mode, applications, m, s, r);
    assert(asks_music(system, previous, mode, applications));
    assert(asks_spotify(system, previous, mode, applications));
    assert(m == music);
    assert(s == spotify);
}

/// The bundle identifier under which the system source reports a dedicated
/// player.
pub open spec fn dedicated_bundle(player: Option<PlayerKind>) -> Option<Seq<char>> {
    match player {
        Some(PlayerKind::AppleMusic) => Some("com.apple.Music"@),
        Some(PlayerKind::Spotify) => Some("com.spotify.client"@),
        _ => None,
    }
}

/// Two optional track fields are both present and equal once normalized.
pub open spec fn same_component(left: Option<String>, right: Option<String>) -> bool {
    match (left, right) {
        (Some(l), Some(r)) => normalized_component_spec(l@) == normalized_component_spec(r@),
        _ => false,
    }
}

/// The system snapshot shows the same track of the same dedicated player as
/// `snapshot` and has artwork for it.
pub open spec fn system_artwork_applies(snapshot: PlaybackSnapshot, system: PlaybackSnapshot) -> bool {
    &&& snapshot.player != Some(PlayerKind::System)
    &&& system.player == Some(PlayerKind::System)
    &&& system.artwork_id is Some
    &&& dedicated_bundle(snapshot.player) is Some
    &&& opt_view(system.source_app_bundle_id) == dedicated_bundle(snapshot.player)
    &&& same_component(snapshot.title, system.title)
    &&& same_component(snapshot.artist, system.artist)
}

/// `snapshot` with the artwork of the system snapshot where that applies.
pub open spec fn with_system_artwork(snapshot: PlaybackSnapshot, system: PlaybackSnapshot) -> PlaybackSnapshot {
    if system_artwork_applies(snapshot, system) {
        PlaybackSnapshot { artwork_id: system.artwork_id, ..snapshot }
    } else {
        snapshot
    }
}

fn same_track_component(left: &Option<String>, right: &Option<String>) -> (r: bool)
    ensures
        r == same_component(*left, *right),
{
    match (left, right) {
        (Some(l), Some(rr)) => {
            let a = normalized_track_component(l.as_str());
            let b = normalized_track_component(rr.as_str());
            crate::text::chars_eq(&a, &b)
        },
        _ => false,
    }
}

/// Lends the artwork of the system source to an Apple Music or Spotify
/// snapshot when the system reports the same player and track.
pub fn attach_system_artwork(snapshot: &mut PlaybackSnapshot, system: &PlaybackSnapshot)
    ensures
        *final(snapshot) == with_system_artwork(*old(snapshot), *system),
{
    if snapshot.player == Some(PlayerKind::System) || system.player != Some(PlayerKind::System)
        || system.artwork_id.is_none() {
        return;
    }
    let expected = match snapshot.player {
        Some(PlayerKind::AppleMusic) => "com.apple.Music",
        Some(PlayerKind::Spotify) => "com.spotify.client",
        _ => {
            return;
        },
    };
    let bundle_matches = match &system.source_app_bundle_id {
        Some(b) => str_eq(b.as_str(), expected),
        None => false,
    };
    if !bundle_matches {
        return;
    }
    let same_title = same_track_component(&snapshot.title, &system.title);
    let same_artist = same_track_component(&snapshot.artist, &system.artist);
    if same_title && same_artist {
        snapshot.artwork_id = clone_opt_string(&system.artwork_id);
    }
}

/// `snapshot` is what the selection picks, before artwork is lent, and `next`
/// the player to remember; `music` and `spotify` stand for the answers that
/// automatic routing uses.
pub open spec fn selected_outcome<F: Fn(PlayerKind) -> PlaybackSnapshot>(
    query: F,
    selection: PlayerSelection,
    previous: Option<PlayerKind>,
    system: PlaybackSnapshot,
    mode: SystemMediaFilterMode,
    applications: Seq<RegisteredApplication>,
    snapshot: PlaybackSnapshot,
    music: PlaybackSnapshot,
    spotify: PlaybackSnapshot,
    next: Option<PlayerKind>,
) -> bool {
    match selection {
        PlayerSelection::AppleMusic => next is None && call_ensures(
            query,
            (PlayerKind::AppleMusic,),
            snapshot,
        ),
        PlayerSelection::Spotify => next is None && call_ensures(
            query,
            (PlayerKind::Spotify,),
            snapshot,
        ),
        PlayerSelection::System => next is None && if passes_filter(system, mode, applications) {
            snapshot == system
        } else {
            snapshot.is_source_blocked(system, mode)
        },
        PlayerSelection::Auto => auto_outcome(
            query,
            system,
            previous,
            mode,
            applications,
            music,
            spotify,
            (snapshot, next),
        ),
    }
}

/// The snapshot of the selected player, with system artwork lent where it
/// applies, and the player to remember for automatic routing. `system` is the
/// snapshot of the system media source; `query` asks a dedicated player.
pub fn query_selected_player<F: Fn(PlayerKind) -> PlaybackSnapshot>(
    selection: PlayerSelection,
    previous_auto_player: Option<PlayerKind>,
    system: PlaybackSnapshot,
    system_media_filter_mode: SystemMediaFilterMode,
    system_media_applications: &[RegisteredApplication],
    query: F,
) -> (r: (PlaybackSnapshot, Option<PlayerKind>))
    requires
        call_requires(query, (PlayerKind::AppleMusic,)),
        call_requires(query, (PlayerKind::Spotify,)),
    ensures
        exists|snapshot: PlaybackSnapshot, music: PlaybackSnapshot, spotify: PlaybackSnapshot|
            #[trigger] selected_outcome(
                query,
                selection,
                previous_auto_player,
                system,
                system_media_filter_mode,
                system_media_applications@,
                snapshot,
                music,
                spotify,
                r.1,
            ) && r.0 == with_system_artwork(snapshot, system),
{
    let ghost apps = system_media_applications@;
    let (mut snapshot, next) = match selection {
        PlayerSelection::AppleMusic => (query(PlayerKind::AppleMusic), None),
        PlayerSelection::Spotify => (query(PlayerKind::Spotify), None),
        PlayerSelection::System => (
            filter_system_source(
                system.duplicate(),
                system_media_filter_mode,
                system_media_applications,
            ),
            None,
        ),
        PlayerSelection::Auto => query_auto_player(
            system.duplicate(),
            previous_auto_player,
            system_media_filter_mode,
            system_media_applications,
            query,
        ),
    };
    let ghost picked = snapshot;
    let ghost (m, s) = if selection == PlayerSelection::Auto {
        choose|m: PlaybackSnapshot, s: PlaybackSnapshot|
            auto_outcome(
                query,
                system,
                previous_auto_player,
                system_media_filter_mode,
                apps,
                m,
                s,
                (picked, next),
            )
    } else {
        (system, system)
    };
    let ghost pair = (m, s);
    proof {
        assert(selected_outcome(
            query,
            selection,
            previous_auto_player,
            system,
            system_media_filter_mode,
            apps,
            picked,
            pair.0,
            pair.1,
            next,
        ));
    }
    attach_system_artwork(&mut snapshot, &system);
    assert(selected_outcome(
        query,
        selection,
        previous_auto_player,
        system,
        system_media_filter_mode,
        apps,
        picked,
        pair.0,
        pair.1,
        next,
    ) && snapshot == with_system_artwork(picked, system));
    let r = (snapshot, next);
    assert(selected_outcome(
        query,
        selection,
        previous_auto_player,
        system,
        system_media_filter_mode,
        apps,
        picked,
        pair.0,
        pair.1,
        r.1,
    ) && r.0 == with_system_artwork(picked, system));
    assert(exists|sn: PlaybackSnapshot, mu: PlaybackSnapshot, sp: PlaybackSnapshot|
        #[trigger] selected_outcome(
            query,
            selection,
            previous_auto_player,
            system,
            system_media_filter_mode,
            apps,
            sn,
            mu,
            sp,
            r.1,
        ) && r.0 == with_system_artwork(sn, system));
    r
}

/// The player that a transport command goes to: the pinned one, or under
/// automatic routing the one of the snapshot, which must be running without
/// error.
pub open spec fn command_target(selection: PlayerSelection, snapshot: PlaybackSnapshot) -> Result<
    PlayerKind,
    Seq<char>,
> {
    match selection.preferred_kind_spec() {
        Some(p) => Ok(p),
        None => match snapshot.player {
            None => Err("当前没有可控制的播放器"@),
            Some(p) => if !snapshot.is_running || snapshot.error_code is Some {
                Err(
                    match snapshot.error {
                        Some(e) => e@,
                        None => "当前播放器不可用"@,
                    },
                )
            } else {
                Ok(p)
            },
        },
    }
}

/// The view of a routing result.
pub open spec fn target_view<T>(r: Result<T, String>) -> Result<T, Seq<char>> {
    match r {
        Ok(t) => Ok(t),
        Err(e) => Err(e@),
    }
}

fn routing_target(selection: PlayerSelection, snapshot: &PlaybackSnapshot) -> (r: Result<
    PlayerKind,
    String,
>)
    ensures
        target_view(r) == command_target(selection, *snapshot),
{
    let player = match selection.preferred_kind() {
        Some(p) => p,
        None => match snapshot.player {
            Some(p) => p,
            None => {
                return Err(String::from_str("当前没有可控制的播放器"));
            },
        },
    };
    if selection == PlayerSelection::Auto && (!snapshot.is_running || snapshot.error_code.is_some()) {
        return Err(
            match &snapshot.error {
                Some(e) => e.clone(),
                None => String::from_str("当前播放器不可用"),
            },
        );
    }
    Ok(player)
}

/// Decides which player receives a transport command: the pinned player, or
/// under automatic routing the player of the snapshot when it is running
/// without error. `Err` carries the message shown to the user.
pub fn control_playback(
    action: PlaybackAction,
    selection: PlayerSelection,
    snapshot: &PlaybackSnapshot,
) -> (r: Result<(PlayerKind, PlaybackAction), String>)
    ensures
        match command_target(selection, *snapshot) {
            Ok(p) => r == Ok::<(PlayerKind, PlaybackAction), String>((p, action)),
            Err(e) => r matches Err(m) && m@ == e,
        },
{
    match routing_target(selection, snapshot) {
        Ok(p) => Ok((p, action)),
        Err(e) => Err(e),
    }
}

/// The seek target: the player as for a transport command, and the position
/// clamped to the track duration, which must be known and positive.
pub open spec fn seek_target(position_ms: u64, selection: PlayerSelection, snapshot: PlaybackSnapshot) -> Result<
    (PlayerKind, u64),
    Seq<char>,
> {
    match command_target(selection, snapshot) {
        Err(e) => Err(e),
        Ok(p) => match snapshot.duration_ms {
            Some(d) => if d > 0 {
                Ok((p, if position_ms < d { position_ms } else { d }))
            } else {
                Err("当前媒体没有可用的播放时长"@)
            },
            None => Err("当前媒体没有可用的播放时长"@),
        },
    }
}

/// Decides where a seek goes and to which position.
pub fn seek_playback(
    position_ms: u64,
    selection: PlayerSelection,
    snapshot: &PlaybackSnapshot,
) -> (r: Result<(PlayerKind, u64), String>)
    ensures
        target_view(r) == seek_target(position_ms, selection, *snapshot),
{
    let player = match routing_target(selection, snapshot) {
        Ok(p) => p,
        Err(e) => {
            return Err(e);
        },
    };
    let duration_ms = match snapshot.duration_ms {
        Some(d) => {
            if d > 0 {
                d
            } else {
                return Err(String::from_str("当前媒体没有可用的播放时长"));
            }
        },
        None => {
            return Err(String::from_str("当前媒体没有可用的播放时长"));
        },
    };
    let position = if position_ms < duration_ms {
        position_ms
    } else {
        duration_ms
    };
    Ok((player, position))
}

} // verus!
