use vstd::prelude::*;

use crate::text::{
    char_is_ascii_alnum, char_is_ascii_alpha, chars_of, is_ascii_alnum, is_ascii_alpha, str_eq,
    string_from_chars, trim_spec, trim_str,
};

verus! {

/// How the list of registered system-media applications is read.
#[derive(Debug, Clone, Copy, PartialEq, Eq, Structural)]
pub enum SystemMediaFilterMode {
    /// Only listed applications may drive the system source.
    Allowlist,
    /// Listed applications are excluded from the system source.
    Blocklist,
}

impl Default for SystemMediaFilterMode {
    fn default() -> (r: Self)
        ensures
            r == SystemMediaFilterMode::Allowlist,
    {
        SystemMediaFilterMode::Allowlist
    }
}

/// An application that the user registered by name and bundle identifier.
#[derive(Debug, Clone)]
pub struct RegisteredApplication {
    pub name: String,
    pub bundle_id: String,
}

/// Whether a bundle identifier is one of the players with a dedicated channel.
pub open spec fn is_dedicated_player_spec(bundle_id: Seq<char>) -> bool {
    bundle_id == "com.apple.Music"@ || bundle_id == "com.spotify.client"@
}

/// Apple Music and Spotify have their own playback channel.
pub fn is_dedicated_player_bundle_id(bundle_id: &str) -> (r: bool)
    ensures
        r == is_dedicated_player_spec(bundle_id@),
{
    str_eq(bundle_id, "com.apple.Music") || str_eq(bundle_id, "com.spotify.client")
}


impl View for RegisteredApplication {
    type V = (Seq<char>, Seq<char>);

    /// The name and the bundle identifier.
    open spec fn view(&self) -> (Seq<char>, Seq<char>) {
        (self.name@, self.bundle_id@)
    }
}

/// A character allowed in a bundle identifier.
pub open spec fn is_bundle_char(c: char) -> bool {
    is_ascii_alnum(c) || c == '.' || c == '-'
}

/// The message for an empty bundle identifier.
pub open spec fn empty_bundle_message() -> Seq<char> {
    "应用的 Bundle ID 不能为空"@
}

/// The message for a malformed bundle identifier.
pub open spec fn invalid_bundle_message(bundle_id: Seq<char>) -> Seq<char> {
    "无效的 Bundle ID："@ + bundle_id
}

/// A trimmed bundle identifier is well formed: at most 255 characters, not
/// starting or ending with a dot, only ASCII letters, digits, dots and dashes.
/// (Only ASCII passes, so the character count is the byte count.)
pub open spec fn bundle_id_well_formed(b: Seq<char>) -> bool {
    &&& b.len() <= 255
    &&& b[0] != '.'
    &&& b.last() != '.'
    &&& forall|i: int| 0 <= i < b.len() ==> is_bundle_char(#[trigger] b[i])
}

/// The registered application with trimmed fields, the bundle identifier
/// standing in for an empty name; or the message that rejects it.
pub open spec fn normalized_application_spec(app: (Seq<char>, Seq<char>)) -> Result<
    (Seq<char>, Seq<char>),
    Seq<char>,
> {
    let b = trim_spec(app.1);
    let n = trim_spec(app.0);
    if b.len() == 0 {
        Err(empty_bundle_message())
    } else if !bundle_id_well_formed(b) {
        Err(invalid_bundle_message(b))
    } else {
        Ok((if n.len() == 0 { b } else { n }, b))
    }
}

/// The view of a result carrying a message.
pub open spec fn result_view<T: View>(r: Result<T, String>) -> Result<T::V, Seq<char>> {
    match r {
        Ok(t) => Ok(t@),
        Err(e) => Err(e@),
    }
}

fn bundle_id_is_well_formed(b: &Vec<char>) -> (r: bool)
    requires
        b@.len() > 0,
    ensures
        r == bundle_id_well_formed(b@),
{
    if b.len() > 255 || b[0] == '.' || b[b.len() - 1] == '.' {
        return false;
    }
    let mut i: usize = 0;
    while i < b.len()
        invariant
            i <= b@.len(),
            forall|j: int| 0 <= j < i ==> is_bundle_char(#[trigger] b@[j]),
        decreases b@.len() - i,
    {
        let c = b[i];
        if !(char_is_ascii_alnum(c) || c == '.' || c == '-') {
            return false;
        }
        i = i + 1;
    }
    true
}

/// Trims a registered application and checks its bundle identifier.
pub fn normalize_registered_application(application: RegisteredApplication) -> (r: Result<
    RegisteredApplication,
    String,
>)
    ensures
        result_view(r) == normalized_application_spec(application@),
{
    normalize_application_ref(&application)
}

fn normalize_application_ref(application: &RegisteredApplication) -> (r: Result<
    RegisteredApplication,
    String,
>)
    ensures
        result_view(r) == normalized_application_spec(application@),
{
    let bundle_id = trim_str(application.bundle_id.as_str());
    if bundle_id.len() == 0 {
        return Err(String::from_str("应用的 Bundle ID 不能为空"));
    }
    if !bundle_id_is_well_formed(&bundle_id) {
        let mut message = crate::text::chars_of("无效的 Bundle ID：");
        crate::text::push_chars(&mut message, &bundle_id);
        return Err(string_from_chars(&message));
    }
    let name = trim_str(application.name.as_str());
    let name = if name.len() == 0 {
        string_from_chars(&bundle_id)
    } else {
        string_from_chars(&name)
    };
    Ok(RegisteredApplication { name, bundle_id: string_from_chars(&bundle_id) })
}

/// The message that rejects a dedicated player in the system list.
pub open spec fn dedicated_in_list_message() -> Seq<char> {
    "Apple Music 和 Spotify 使用专用通道，不能添加到系统播放应用"@
}

/// Whether some application of the list has this bundle identifier.
pub open spec fn has_bundle(apps: Seq<(Seq<char>, Seq<char>)>, b: Seq<char>) -> bool {
    exists|j: int| 0 <= j < apps.len() && (#[trigger] apps[j]).1 == b
}

/// The system-media list normalized entry by entry, left to right: the first
/// rejected entry, or a dedicated player, fails the whole list; of entries
/// with the same bundle identifier the first is kept.
pub open spec fn normalized_applications_spec(apps: Seq<(Seq<char>, Seq<char>)>) -> Result<
    Seq<(Seq<char>, Seq<char>)>,
    Seq<char>,
>
    decreases apps.len(),
{
    if apps.len() == 0 {
        Ok(seq![])
    } else {
        match normalized_applications_spec(apps.drop_last()) {
            Err(e) => Err(e),
            Ok(acc) => match normalized_application_spec(apps.last()) {
                Err(e) => Err(e),
                Ok(a) => if is_dedicated_player_spec(a.1) {
                    Err(dedicated_in_list_message())
                } else if has_bundle(acc, a.1) {
                    Ok(acc)
                } else {
                    Ok(acc.push(a))
                },
            },
        }
    }
}

/// The views of a list of applications.
pub open spec fn apps_view(apps: Seq<RegisteredApplication>) -> Seq<(Seq<char>, Seq<char>)> {
    apps.map_values(|a: RegisteredApplication| a@)
}

/// The view of a normalized list.
pub open spec fn apps_result_view(r: Result<Vec<RegisteredApplication>, String>) -> Result<
    Seq<(Seq<char>, Seq<char>)>,
    Seq<char>,
> {
    match r {
        Ok(v) => Ok(apps_view(v@)),
        Err(e) => Err(e@),
    }
}

fn list_has_bundle(list: &Vec<RegisteredApplication>, bundle_id: &String) -> (r: bool)
    ensures
        r == has_bundle(apps_view(list@), bundle_id@),
{
    let mut i: usize = 0;
    while i < list.len()
        invariant
            i <= list@.len(),
            forall|j: int| 0 <= j < i ==> (#[trigger] list@[j]).bundle_id@ != bundle_id@,
        decreases list@.len() - i,
    {
        if str_eq(list[i].bundle_id.as_str(), bundle_id.as_str()) {
            assert(apps_view(list@)[i as int].1 == bundle_id@);
            return true;
        }
        i = i + 1;
    }
    assert forall|j: int| 0 <= j < apps_view(list@).len() implies (#[trigger] apps_view(
        list@,
    )[j]).1 != bundle_id@ by {
        assert(list@[j].bundle_id@ != bundle_id@);
    }
    false
}

/// Normalizes the registered system-media applications: each is trimmed and
/// checked, Apple Music and Spotify are refused, and repeated bundle
/// identifiers are dropped after their first occurrence.
pub fn normalize_system_media_applications(applications: Vec<RegisteredApplication>) -> (r: Result<
    Vec<RegisteredApplication>,
    String,
>)
    ensures
        apps_result_view(r) == normalized_applications_spec(apps_view(applications@)),
{
    let ghost input = apps_view(applications@);
    let mut normalized: Vec<RegisteredApplication> = Vec::new();
    let mut index: usize = 0;
    let n = applications.len();
    let ghost original = applications@;
    assert(input.take(0) =~= Seq::<(Seq<char>, Seq<char>)>::empty());
    assert(apps_view(normalized@) =~= Seq::<(Seq<char>, Seq<char>)>::empty());
    while index < n
        invariant
            n == original.len(),
            original == applications@,
            index <= n,
            input == apps_view(original),
            normalized_applications_spec(input.take(index as int)) == Ok::<
                Seq<(Seq<char>, Seq<char>)>,
                Seq<char>,
            >(apps_view(normalized@)),
        decreases n - index,
    {
        let application = &applications[index];
        let ghost pre = input.take(index as int);
        let ghost cur = input.take(index + 1);
        assert(cur.drop_last() == pre);
        assert(cur.last() == application@);
        let application = match normalize_application_ref(application) {
            Ok(a) => a,
            Err(e) => {
                proof {
                    lemma_normalized_applications_error_sticks(input, index as int + 1);
                }
                return Err(e);
            },
        };
        if is_dedicated_player_bundle_id(application.bundle_id.as_str()) {
            proof {
                lemma_normalized_applications_error_sticks(input, index as int + 1);
            }
            return Err(String::from_str("Apple Music 和 Spotify 使用专用通道，不能添加到系统播放应用"));
        }
        if !list_has_bundle(&normalized, &application.bundle_id) {
            let ghost before = normalized@;
            normalized.push(application);
            assert(apps_view(normalized@) == apps_view(before).push(application@));
        }
        index = index + 1;
    }
    assert(input.take(n as int) == input);
    Ok(normalized)
}

proof fn lemma_normalized_applications_error_sticks(apps: Seq<(Seq<char>, Seq<char>)>, k: int)
    requires
        0 <= k <= apps.len(),
        normalized_applications_spec(apps.take(k)) is Err,
    ensures
        normalized_applications_spec(apps) == normalized_applications_spec(apps.take(k)),
    decreases apps.len() - k,
{
    if k < apps.len() {
        let next = apps.take(k + 1);
        assert(next.drop_last() == apps.take(k));
        lemma_normalized_applications_error_sticks(apps, k + 1);
    } else {
        assert(apps.take(k) == apps);
    }
}

/// Normalizes the optional player-follower application like a registered one.
pub fn normalize_player_follower_application(application: Option<RegisteredApplication>) -> (r: Result<
    Option<RegisteredApplication>,
    String,
>)
    ensures
        match application {
            None => r matches Ok(None),
            Some(a) => match normalized_application_spec(a@) {
                Ok(v) => r matches Ok(Some(n)) && n@ == v,
                Err(e) => r matches Err(m) && m@ == e,
            },
        },
{
    match application {
        None => Ok(None),
        Some(a) => match normalize_registered_application(a) {
            Ok(n) => Ok(Some(n)),
            Err(e) => Err(e),
        },
    }
}

} // verus!

verus! {

proof fn lemma_application_fixed(app: (Seq<char>, Seq<char>))
    requires
        normalized_application_spec(app) is Ok,
    ensures
        normalized_application_spec(normalized_application_spec(app)->Ok_0) == normalized_application_spec(app),
{
    let v = normalized_application_spec(app)->Ok_0;
    crate::text::lemma_trim_idempotent(app.1);
    crate::text::lemma_trim_idempotent(app.0);
}

/// Every entry of a normalized list is normalized, no entry is a dedicated
/// player, and no two entries share a bundle identifier.
pub open spec fn normalized_list(list: Seq<(Seq<char>, Seq<char>)>) -> bool {
    &&& forall|i: int| 0 <= i < list.len() ==> normalized_application_spec(#[trigger] list[i])
        == Ok::<(Seq<char>, Seq<char>), Seq<char>>(list[i])
    &&& forall|i: int| 0 <= i < list.len() ==> !is_dedicated_player_spec(#[trigger] list[i].1)
    &&& forall|i: int, j: int| 0 <= i < j < list.len() ==> #[trigger] list[i].1 != #[trigger] list[j].1
}

proof fn lemma_normalized_list(apps: Seq<(Seq<char>, Seq<char>)>)
    requires
        normalized_applications_spec(apps) is Ok,
    ensures
        normalized_list(normalized_applications_spec(apps)->Ok_0),
    decreases apps.len(),
{
    if apps.len() > 0 {
        lemma_normalized_list(apps.drop_last());
        let acc = normalized_applications_spec(apps.drop_last())->Ok_0;
        let a = normalized_application_spec(apps.last())->Ok_0;
        lemma_application_fixed(apps.last());
        if !has_bundle(acc, a.1) {
            let r = acc.push(a);
            assert forall|i: int, j: int| 0 <= i < j < r.len() implies #[trigger] r[i].1 != #[trigger] r[j].1 by {
                if j == r.len() - 1 {
                    assert(acc[i] == r[i]);
                }
            }
        }
    }
}

proof fn lemma_normalized_list_fixed(list: Seq<(Seq<char>, Seq<char>)>, k: int)
    requires
        normalized_list(list),
        0 <= k <= list.len(),
    ensures
        normalized_applications_spec(list.take(k)) == Ok::<
            Seq<(Seq<char>, Seq<char>)>,
            Seq<char>,
        >(list.take(k)),
    decreases k,
{
    if k > 0 {
        lemma_normalized_list_fixed(list, k - 1);
        let cur = list.take(k);
        assert(cur.drop_last() == list.take(k - 1));
        assert(cur.last() == list[k - 1]);
        assert(normalized_application_spec(list[k - 1]) == Ok::<
            (Seq<char>, Seq<char>),
            Seq<char>,
        >(list[k - 1]));
        assert(!has_bundle(list.take(k - 1), list[k - 1].1)) by {
            if has_bundle(list.take(k - 1), list[k - 1].1) {
                let j = choose|j: int| 0 <= j < k - 1 && (#[trigger] list.take(k - 1)[j]).1
                    == list[k - 1].1;
                assert(list[j].1 != list[k - 1].1);
            }
        }
        assert(list.take(k - 1).push(list[k - 1]) == cur);
    } else {
        assert(list.take(0) == Seq::<(Seq<char>, Seq<char>)>::empty());
    }
}

/// Normalizing a normalized list of system-media applications gives the same
/// list back.
pub proof fn normalize_system_media_applications_idempotent(apps: Seq<(Seq<char>, Seq<char>)>)
    requires
        normalized_applications_spec(apps) is Ok,
    ensures
        normalized_applications_spec(normalized_applications_spec(apps)->Ok_0)
            == normalized_applications_spec(apps),
{
    let list = normalized_applications_spec(apps)->Ok_0;
    lemma_normalized_list(apps);
    lemma_normalized_list_fixed(list, list.len() as int);
    assert(list.take(list.len() as int) == list);
}

/// A normalized list of system-media applications holds no dedicated player
/// and no bundle identifier twice.
pub proof fn normalized_applications_are_distinct(apps: Seq<(Seq<char>, Seq<char>)>)
    requires
        normalized_applications_spec(apps) is Ok,
    ensures
        normalized_list(normalized_applications_spec(apps)->Ok_0),
{
    lemma_normalized_list(apps);
}

} // verus!

verus! {

/// The colour theme of the interface.
#[derive(Debug, Clone, Copy, PartialEq, Eq, Structural)]
pub enum ThemePreference {
    System,
    Light,
    Dark,
}

impl Default for ThemePreference {
    fn default() -> (r: Self)
        ensures
            r == ThemePreference::Dark,
    {
        ThemePreference::Dark
    }
}

/// The role that the laboratory runs in; the running state is not stored.
#[derive(Debug, Clone, Copy, PartialEq, Eq, Structural)]
pub enum LaboratoryRole {
    Server,
    Client,
}

impl Default for LaboratoryRole {
    fn default() -> (r: Self)
        ensures
            r == LaboratoryRole::Server,
    {
        LaboratoryRole::Server
    }
}

/// How compact lyric displays animate the sung part of a line.
#[derive(Debug, Clone, Copy, PartialEq, Eq, Structural)]
pub enum CompactKaraokeStyle {
    Sweep,
    Highlight,
}

impl Default for CompactKaraokeStyle {
    fn default() -> (r: Self)
        ensures
            r == CompactKaraokeStyle::Sweep,
    {
        CompactKaraokeStyle::Sweep
    }
}

/// What a side slot of the notch display shows.
#[derive(Debug, Clone, Copy, PartialEq, Eq, Structural)]
pub enum NotchSlotContent {
    Empty,
    Title,
    Artist,
    Artwork,
    Spectrum,
}

impl Default for NotchSlotContent {
    fn default() -> (r: Self)
        ensures
            r == NotchSlotContent::Artwork,
    {
        NotchSlotContent::Artwork
    }
}

/// The interface language: `system`, or a BCP 47 tag.
#[derive(Debug, Clone)]
pub struct LanguagePreference(String);

impl View for LanguagePreference {
    type V = Seq<char>;

    /// The stored language value.
    closed spec fn view(&self) -> Seq<char> {
        self.0@
    }
}

/// The language subtag of a tag: two to eight ASCII letters.
pub open spec fn primary_subtag_ok(p: Seq<char>) -> bool {
    2 <= p.len() <= 8 && forall|i: int| 0 <= i < p.len() ==> is_ascii_alpha(#[trigger] p[i])
}

/// A later subtag: one to eight ASCII letters or digits.
pub open spec fn later_subtag_ok(t: Seq<char>) -> bool {
    1 <= t.len() <= 8 && forall|i: int| 0 <= i < t.len() ==> is_ascii_alnum(#[trigger] t[i])
}

/// A language preference is `system` or a dash-separated tag of at most 64
/// characters whose first subtag is a language subtag and whose other subtags
/// are well formed. (Only ASCII passes, so the character count is the byte
/// count.)
pub open spec fn valid_language_spec(candidate: Seq<char>) -> bool {
    let parts = crate::text::split_spec(candidate, '-');
    candidate == "system"@ || (candidate.len() <= 64 && primary_subtag_ok(parts[0]) && forall|
        i: int,
    |
        1 <= i < parts.len() ==> later_subtag_ok(#[trigger] parts[i]))
}

fn all_chars(p: &Vec<char>, letters_only: bool) -> (r: bool)
    ensures
        r == forall|i: int|
            0 <= i < p@.len() ==> if letters_only {
                is_ascii_alpha(#[trigger] p@[i])
            } else {
                is_ascii_alnum(p@[i])
            },
{
    let mut i: usize = 0;
    while i < p.len()
        invariant
            i <= p@.len(),
            forall|j: int|
                0 <= j < i ==> if letters_only {
                    is_ascii_alpha(#[trigger] p@[j])
                } else {
                    is_ascii_alnum(p@[j])
                },
        decreases p@.len() - i,
    {
        let ok = if letters_only {
            char_is_ascii_alpha(p[i])
        } else {
            char_is_ascii_alnum(p[i])
        };
        if !ok {
            return false;
        }
        i = i + 1;
    }
    true
}

/// Checks a language preference value.
pub fn is_valid_language_preference(candidate: &str) -> (r: bool)
    ensures
        r == valid_language_spec(candidate@),
{
    if str_eq(candidate, "system") {
        return true;
    }
    let chars = chars_of(candidate);
    if chars.len() > 64 {
        return false;
    }
    let parts = crate::text::split_chars(&chars, '-');
    proof {
        crate::text::lemma_split_nonempty(chars@, '-');
    }
    let ghost pv = crate::text::pieces_view(parts@);
    let primary = &parts[0];
    assert(primary@ == pv[0]);
    if !(primary.len() >= 2 && primary.len() <= 8 && all_chars(primary, true)) {
        return false;
    }
    let mut i: usize = 1;
    while i < parts.len()
        invariant
            1 <= i <= parts@.len(),
            pv == crate::text::pieces_view(parts@),
            pv == crate::text::split_spec(candidate@, '-'),
            candidate@ != "system"@,
            candidate@.len() <= 64,
            primary_subtag_ok(pv[0]),
            forall|j: int| 1 <= j < i ==> later_subtag_ok(#[trigger] pv[j]),
        decreases parts@.len() - i,
    {
        let part = &parts[i];
        assert(part@ == pv[i as int]);
        if !(part.len() >= 1 && part.len() <= 8 && all_chars(part, false)) {
            return false;
        }
        i = i + 1;
    }
    true
}

impl LanguagePreference {
    /// A preference holding this value as given.
    pub fn from_value(value: &str) -> (r: Self)
        ensures
            r@ == value@,
    {
        LanguagePreference(String::from_str(value))
    }

    /// Whether the interface uses the native Simplified Chinese texts.
    pub fn uses_native_chinese(&self) -> (r: bool)
        ensures
            r == (self@ == "zh-CN"@),
    {
        str_eq(self.0.as_str(), "zh-CN")
    }

    /// Whether the preference is `system` or a well-formed language tag.
    pub fn is_valid(&self) -> (r: bool)
        ensures
            r == valid_language_spec(self@),
    {
        is_valid_language_preference(self.0.as_str())
    }
}

impl Default for LanguagePreference {
    fn default() -> (r: Self)
        ensures
            r@ == "system"@,
    {
        LanguagePreference(String::from_str("system"))
    }
}

/// The device name to show: the first of the two names that the environment
/// offers, unless it is blank; `Lyrics Plus` otherwise.
pub open spec fn device_name_spec(computer_name: Option<Seq<char>>, host_name: Option<Seq<char>>) -> Seq<char> {
    let picked = match computer_name {
        Some(c) => Some(c),
        None => host_name,
    };
    match picked {
        Some(v) => if trim_spec(v).len() > 0 {
            v
        } else {
            "Lyrics Plus"@
        },
        None => "Lyrics Plus"@,
    }
}

/// Picks the laboratory device name from the computer and host names that the
/// environment holds, if any.
pub fn default_laboratory_device_name(computer_name: Option<String>, host_name: Option<String>) -> (r: String)
    ensures
        r@ == device_name_spec(
            match computer_name {
                Some(c) => Some(c@),
                None => None,
            },
            match host_name {
                Some(h) => Some(h@),
                None => None,
            },
        ),
{
    let picked = match computer_name {
        Some(c) => Some(c),
        None => host_name,
    };
    match picked {
        Some(v) => {
            let trimmed = trim_str(v.as_str());
            if trimmed.len() > 0 {
                v
            } else {
                String::from_str("Lyrics Plus")
            }
        },
        None => String::from_str("Lyrics Plus"),
    }
}

/// Settings of the laboratory server.
#[derive(Debug, Clone)]
pub struct LaboratoryServerPreferences {
    pub name: String,
    pub port: u16,
    pub discovery_enabled: bool,
    pub web_enabled: bool,
    pub debounce_ms: u64,
}

impl LaboratoryServerPreferences {
    /// The default server settings under this device name.
    pub fn defaults_named(name: String) -> (r: Self)
        ensures
            r.name == name,
            r.port == 47123,
            r.discovery_enabled,
            !r.web_enabled,
            r.debounce_ms == 1000,
    {
        LaboratoryServerPreferences {
            name,
            port: 47_123,
            discovery_enabled: true,
            web_enabled: false,
            debounce_ms: 1_000,
        }
    }
}

/// Settings of the laboratory client.
#[derive(Debug, Clone)]
pub struct LaboratoryClientPreferences {
    pub name: String,
    pub last_server_id: Option<String>,
}

impl LaboratoryClientPreferences {
    /// The default client settings under this device name.
    pub fn defaults_named(name: String) -> (r: Self)
        ensures
            r.name == name,
            r.last_server_id is None,
    {
        LaboratoryClientPreferences { name, last_server_id: None }
    }
}

/// The stored laboratory settings.
#[derive(Debug, Clone)]
pub struct LaboratoryPreferences {
    pub role: LaboratoryRole,
    pub auto_start: bool,
    pub server: LaboratoryServerPreferences,
    pub client: LaboratoryClientPreferences,
}

impl LaboratoryPreferences {
    /// The default laboratory settings under this device name.
    pub fn defaults_named(name: String) -> (r: Self)
        ensures
            r.role == LaboratoryRole::Server,
            !r.auto_start,
            r.server.name@ == name@,
            r.server.port == 47123,
            r.client.name@ == name@,
            r.client.last_server_id is None,
    {
        let client_name = name.clone();
        LaboratoryPreferences {
            role: LaboratoryRole::Server,
            auto_start: false,
            server: LaboratoryServerPreferences::defaults_named(name),
            client: LaboratoryClientPreferences::defaults_named(client_name),
        }
    }
}

/// The global keyboard shortcuts, in the notation of the shortcut parser.
#[derive(Debug, Clone)]
pub struct GlobalShortcutSettings {
    pub toggle_overlay: String,
    pub unlock_overlay: String,
    pub reset_overlay: String,
    pub toggle_status_bar_lyrics: String,
    pub toggle_list_lyrics: String,
    pub toggle_notch_lyrics: String,
}

impl Default for GlobalShortcutSettings {
    fn default() -> (r: Self)
        ensures
            r.toggle_overlay@ == "CommandOrControl+Shift+KeyL"@,
            r.unlock_overlay@ == "CommandOrControl+Shift+KeyU"@,
            r.reset_overlay@ == "CommandOrControl+Shift+Digit0"@,
            r.toggle_status_bar_lyrics@.len() == 0,
            r.toggle_list_lyrics@.len() == 0,
            r.toggle_notch_lyrics@.len() == 0,
    {
        GlobalShortcutSettings {
            toggle_overlay: String::from_str("CommandOrControl+Shift+KeyL"),
            unlock_overlay: String::from_str("CommandOrControl+Shift+KeyU"),
            reset_overlay: String::from_str("CommandOrControl+Shift+Digit0"),
            toggle_status_bar_lyrics: String::new(),
            toggle_list_lyrics: String::new(),
            toggle_notch_lyrics: String::new(),
        }
    }
}

/// General application settings.
#[derive(Debug, Clone)]
pub struct AppPreferences {
    pub theme: ThemePreference,
    pub language: LanguagePreference,
    pub player_selection: crate::player::PlayerSelection,
    pub system_media_filter_mode: SystemMediaFilterMode,
    pub system_media_applications: Vec<RegisteredApplication>,
    pub player_follower_application: Option<RegisteredApplication>,
    pub hide_dock_icon: bool,
    pub silent_startup: bool,
    pub auto_check_updates: bool,
    pub lyrics_windows_show_on_all_spaces: bool,
    pub shortcuts: GlobalShortcutSettings,
}

impl Default for AppPreferences {
    fn default() -> (r: Self)
        ensures
            r.theme == ThemePreference::Dark,
            r.language@ == "system"@,
            r.player_selection == crate::player::PlayerSelection::Auto,
            r.system_media_filter_mode == SystemMediaFilterMode::Allowlist,
            r.system_media_applications@.len() == 0,
            r.player_follower_application is None,
            !r.hide_dock_icon,
            !r.silent_startup,
            r.auto_check_updates,
            !r.lyrics_windows_show_on_all_spaces,
            r.shortcuts.toggle_overlay@ == "CommandOrControl+Shift+KeyL"@,
    {
        AppPreferences {
            theme: ThemePreference::Dark,
            language: LanguagePreference::default(),
            player_selection: crate::player::PlayerSelection::Auto,
            system_media_filter_mode: SystemMediaFilterMode::Allowlist,
            system_media_applications: Vec::new(),
            player_follower_application: None,
            hide_dock_icon: false,
            silent_startup: false,
            auto_check_updates: true,
            lyrics_windows_show_on_all_spaces: false,
            shortcuts: GlobalShortcutSettings::default(),
        }
    }
}

/// The default font stack of the lyric displays.
pub open spec fn default_font_family() -> Seq<char> {
    "Inter, \"SF Pro Text\", \"SF Pro Display\", -apple-system, BlinkMacSystemFont, \"Segoe UI\", \"PingFang SC\", \"Hiragino Sans GB\", \"Microsoft YaHei\", \"Noto Sans CJK SC\", \"Noto Sans SC\", Arial, sans-serif"@
}

/// The default font stack of the lyric displays.
pub fn default_font_family_string() -> (r: String)
    ensures
        r@ == default_font_family(),
{
    String::from_str(
        "Inter, \"SF Pro Text\", \"SF Pro Display\", -apple-system, BlinkMacSystemFont, \"Segoe UI\", \"PingFang SC\", \"Hiragino Sans GB\", \"Microsoft YaHei\", \"Noto Sans CJK SC\", \"Noto Sans SC\", Arial, sans-serif",
    )
}

/// The shared font and colours that the lyric displays may inherit.
#[derive(Debug, Clone)]
pub struct LyricsBaseAppearance {
    pub font_family: String,
    pub active_color: String,
    pub inactive_color: String,
    pub translation_color: String,
    pub romanization_color: String,
    pub supporting_color: String,
    pub background_color: String,
}

impl Default for LyricsBaseAppearance {
    fn default() -> (r: Self)
        ensures
            r.font_family@ == default_font_family(),
            r.active_color@ == "#a3e635"@,
            r.inactive_color@ == "#ecfccb"@,
            r.translation_color@ == "#d9f99d"@,
            r.romanization_color@ == "#bef264"@,
            r.supporting_color@ == "#94a3b8"@,
            r.background_color@ == "#171821"@,
    {
        LyricsBaseAppearance {
            font_family: default_font_family_string(),
            active_color: String::from_str("#a3e635"),
            inactive_color: String::from_str("#ecfccb"),
            translation_color: String::from_str("#d9f99d"),
            romanization_color: String::from_str("#bef264"),
            supporting_color: String::from_str("#94a3b8"),
            background_color: String::from_str("#171821"),
        }
    }
}

/// Which of the base font and colours one display inherits.
#[derive(Debug, Clone, Copy, PartialEq, Eq, Structural)]
pub struct LyricsModeStyleInheritance {
    pub inherit_font_family: bool,
    pub inherit_colors: bool,
}

impl Default for LyricsModeStyleInheritance {
    fn default() -> (r: Self)
        ensures
            r.inherit_font_family,
            r.inherit_colors,
    {
        LyricsModeStyleInheritance { inherit_font_family: true, inherit_colors: true }
    }
}

/// The inheritance settings of every display.
#[derive(Debug, Clone, Copy, PartialEq, Eq, Structural)]
pub struct LyricsStyleInheritance {
    pub desktop: LyricsModeStyleInheritance,
    pub status_bar: LyricsModeStyleInheritance,
    pub list_window: LyricsModeStyleInheritance,
    pub notch: LyricsModeStyleInheritance,
}

impl Default for LyricsStyleInheritance {
    fn default() -> (r: Self)
        ensures
            r.desktop.inherit_font_family && r.desktop.inherit_colors,
            r.status_bar.inherit_font_family && r.status_bar.inherit_colors,
            r.list_window.inherit_font_family && r.list_window.inherit_colors,
            r.notch.inherit_font_family && r.notch.inherit_colors,
    {
        LyricsStyleInheritance {
            desktop: LyricsModeStyleInheritance::default(),
            status_bar: LyricsModeStyleInheritance::default(),
            list_window: LyricsModeStyleInheritance::default(),
            notch: LyricsModeStyleInheritance::default(),
        }
    }
}

/// How the menu bar lyrics look.
#[derive(Debug, Clone)]
pub struct StatusBarLyricsAppearance {
    pub font_family: String,
    pub font_size: u16,
    pub font_weight: u16,
    pub text_color: String,
    pub inactive_color: String,
    pub highlight_color: String,
    pub karaoke_style: CompactKaraokeStyle,
    pub width: u16,
}

impl Default for StatusBarLyricsAppearance {
    fn default() -> (r: Self)
        ensures
            r.font_family@ == default_font_family(),
            r.font_size == 14,
            r.font_weight == 600,
            r.text_color@ == "#a3e635"@,
            r.inactive_color@ == "#ecfccb"@,
            r.highlight_color@ == "#a3e635"@,
            r.karaoke_style == CompactKaraokeStyle::Sweep,
            r.width == 220,
    {
        StatusBarLyricsAppearance {
            font_family: default_font_family_string(),
            font_size: 14,
            font_weight: 600,
            text_color: String::from_str("#a3e635"),
            inactive_color: String::from_str("#ecfccb"),
            highlight_color: String::from_str("#a3e635"),
            karaoke_style: CompactKaraokeStyle::Sweep,
            width: 220,
        }
    }
}

/// The menu bar lyrics settings.
#[derive(Debug, Clone)]
pub struct StatusBarLyricsPreferences {
    pub enabled: bool,
    pub hide_when_not_playing: bool,
    pub appearance: StatusBarLyricsAppearance,
}

impl Default for StatusBarLyricsPreferences {
    fn default() -> (r: Self)
        ensures
            !r.enabled,
            !r.hide_when_not_playing,
            r.appearance.font_size == 14,
            r.appearance.width == 220,
    {
        StatusBarLyricsPreferences {
            enabled: false,
            hide_when_not_playing: false,
            appearance: StatusBarLyricsAppearance::default(),
        }
    }
}

} // verus!

verus! {

/// The font weights that the lyric displays offer.
pub open spec fn is_offered_weight(w: int) -> bool {
    w == 400 || w == 500 || w == 600 || w == 700 || w == 800
}

/// The distance between two weights.
pub open spec fn weight_distance(a: int, b: int) -> int {
    if a >= b {
        a - b
    } else {
        b - a
    }
}

/// `r` is the offered weight closest to `value`, the lighter one on a tie.
pub open spec fn is_nearest_weight(r: int, value: int) -> bool {
    &&& is_offered_weight(r)
    &&& forall|c: int| #[trigger] is_offered_weight(c) ==> weight_distance(r, value) <= weight_distance(c, value)
    &&& forall|c: int| #[trigger] is_offered_weight(c) && c < r ==> weight_distance(r, value) < weight_distance(c, value)
}

fn nearest_weight(value: u16) -> (r: u16)
    ensures
        is_nearest_weight(r as int, value as int),
{
    if value <= 450 {
        400
    } else if value <= 550 {
        500
    } else if value <= 650 {
        600
    } else if value <= 750 {
        700
    } else {
        800
    }
}

/// The offered font weight nearest to `value` for the compact displays.
pub fn normalize_display_font_weight(value: u16) -> (r: u16)
    ensures
        is_nearest_weight(r as int, value as int),
{
    nearest_weight(value)
}

/// The offered font weight nearest to `value` for the desktop lyrics.
pub fn nearest_overlay_font_weight(value: u16) -> (r: u16)
    ensures
        is_nearest_weight(r as int, value as int),
{
    nearest_weight(value)
}

/// A character that may appear in a CSS colour function.
pub open spec fn is_color_function_char(c: char) -> bool {
    crate::text::is_ascii_alnum(c) || crate::text::is_ascii_space(c) || c == '(' || c == ')' || c
        == ',' || c == '.' || c == '%' || c == '/' || c == '+' || c == '-'
}

/// One of the CSS colour functions that a colour may use.
pub open spec fn starts_with_color_function(s: Seq<char>) -> bool {
    crate::text::has_prefix(s, "rgb("@) || crate::text::has_prefix(s, "rgba("@)
        || crate::text::has_prefix(s, "hsl("@) || crate::text::has_prefix(s, "hsla("@)
        || crate::text::has_prefix(s, "hwb("@) || crate::text::has_prefix(s, "lab("@)
        || crate::text::has_prefix(s, "lch("@) || crate::text::has_prefix(s, "oklab("@)
        || crate::text::has_prefix(s, "oklch("@) || crate::text::has_prefix(s, "color("@)
}

/// The colours the settings accept, after trimming: `#` with three, four, six
/// or eight hex digits; `transparent` or `currentcolor` in any ASCII case; or
/// a colour function call made of ASCII letters, digits, white space and
/// `(),.%/+-`. (Only ASCII passes, so character counts are byte counts.)
pub open spec fn supported_color_spec(value: Seq<char>) -> bool {
    let v = trim_spec(value);
    let lower = crate::text::ascii_lower_seq(v);
    if v.len() > 0 && v[0] == '#' {
        let hex = v.drop_first();
        (hex.len() == 3 || hex.len() == 4 || hex.len() == 6 || hex.len() == 8) && forall|i: int|
            0 <= i < hex.len() ==> crate::text::is_ascii_hex(#[trigger] hex[i])
    } else if lower == "transparent"@ || lower == "currentcolor"@ {
        true
    } else {
        starts_with_color_function(lower) && lower.len() > 0 && lower.last() == ')' && forall|
            i: int,
        |
            0 <= i < lower.len() ==> is_color_function_char(#[trigger] lower[i])
    }
}

/// Whether the settings accept a colour value.
#[verifier::loop_isolation(false)]
pub fn is_supported_color(value: &str) -> (r: bool)
    ensures
        r == supported_color_spec(value@),
{
    let v = trim_str(value);
    let lower = crate::text::ascii_lowercase(&v);
    if v.len() > 0 && v[0] == '#' {
        let n = v.len() - 1;
        if !(n == 3 || n == 4 || n == 6 || n == 8) {
            return false;
        }
        let ghost hex = v@.drop_first();
        let mut i: usize = 1;
        while i < v.len()
            invariant
                1 <= i <= v@.len(),
                hex == v@.drop_first(),
                forall|j: int| 0 <= j < i - 1 ==> crate::text::is_ascii_hex(#[trigger] hex[j]),
            decreases v@.len() - i,
        {
            if !crate::text::char_is_ascii_hex(v[i]) {
                assert(hex[i - 1] == v@[i as int]);
                return false;
            }
            i = i + 1;
        }
        return true;
    }
    let transparent = chars_of("transparent");
    let current = chars_of("currentcolor");
    if crate::text::chars_eq(&lower, &transparent) || crate::text::chars_eq(&lower, &current) {
        return true;
    }
    let starts = crate::text::chars_start_with(&lower, "rgb(") || crate::text::chars_start_with(
        &lower,
        "rgba(",
    ) || crate::text::chars_start_with(&lower, "hsl(") || crate::text::chars_start_with(
        &lower,
        "hsla(",
    ) || crate::text::chars_start_with(&lower, "hwb(") || crate::text::chars_start_with(
        &lower,
        "lab(",
    ) || crate::text::chars_start_with(&lower, "lch(") || crate::text::chars_start_with(
        &lower,
        "oklab(",
    ) || crate::text::chars_start_with(&lower, "oklch(") || crate::text::chars_start_with(
        &lower,
        "color(",
    );
    if !starts || lower.len() == 0 || lower[lower.len() - 1] != ')' {
        return false;
    }
    let mut i: usize = 0;
    while i < lower.len()
        invariant
            i <= lower@.len(),
            forall|j: int| 0 <= j < i ==> is_color_function_char(#[trigger] lower@[j]),
        decreases lower@.len() - i,
    {
        let c = lower[i];
        if !(crate::text::char_is_ascii_alnum(c) || crate::text::char_is_ascii_space(c) || c == '('
            || c == ')' || c == ',' || c == '.' || c == '%' || c == '/' || c == '+' || c == '-') {
            return false;
        }
        i = i + 1;
    }
    true
}

} // verus!

verus! {

/// Lowering the ASCII case keeps a character of a colour function one, and
/// keeps `)`.
proof fn lemma_lower_keeps_color_function_char(c: char)
    ensures
        is_color_function_char(c) ==> is_color_function_char(crate::text::ascii_lower(c)),
        c == ')' ==> crate::text::ascii_lower(c) == ')',
{
    if 'A' <= c && c <= 'Z' {
        let v = (c as u32) + 32;
        assert(97 <= v <= 122);
        assert('a' <= crate::text::ascii_lower(c) && crate::text::ascii_lower(c) <= 'z');
    }
}

/// A colour function call is a supported colour: after trimming, a value that
/// starts, in any ASCII case, with one of `rgb(`, `rgba(`, `hsl(`, `hsla(`,
/// `hwb(`, `lab(`, `lch(`, `oklab(`, `oklch(` or `color(`, ends with `)` and
/// holds only ASCII letters, digits, white space and `(),.%/+-`.
pub proof fn color_function_call_is_supported(value: Seq<char>, function: Seq<char>)
    requires
        function == "rgb("@ || function == "rgba("@ || function == "hsl("@ || function
            == "hsla("@ || function == "hwb("@ || function == "lab("@ || function == "lch("@
            || function == "oklab("@ || function == "oklch("@ || function == "color("@,
        crate::text::has_prefix(crate::text::ascii_lower_seq(trim_spec(value)), function),
        trim_spec(value).len() > 0,
        trim_spec(value).last() == ')',
        forall|i: int|
            0 <= i < trim_spec(value).len() ==> is_color_function_char(
                #[trigger] trim_spec(value)[i],
            ),
    ensures
        supported_color_spec(value),
{
    let v = trim_spec(value);
    let lower = crate::text::ascii_lower_seq(v);
    reveal_strlit("rgb(");
    reveal_strlit("rgba(");
    reveal_strlit("hsl(");
    reveal_strlit("hsla(");
    reveal_strlit("hwb(");
    reveal_strlit("lab(");
    reveal_strlit("lch(");
    reveal_strlit("oklab(");
    reveal_strlit("oklch(");
    reveal_strlit("color(");
    assert(lower[0] == function[0]);
    assert(function[0] != '#');
    lemma_lower_keeps_color_function_char(v[0]);
    assert(v[0] != '#');
    assert(starts_with_color_function(lower));
    lemma_lower_keeps_color_function_char(v.last());
    assert(lower.last() == ')');
    assert forall|i: int| 0 <= i < lower.len() implies is_color_function_char(#[trigger] lower[i]) by {
        lemma_lower_keeps_color_function_char(v[i]);
    }
}

} // verus!
